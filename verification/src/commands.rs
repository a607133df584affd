//! Viewer commands and the keyboard shortcuts that produce them.
use vstd::prelude::*;

use crate::animation::AnimationFrameStepDirection;

verus! {

#[derive(Debug, Clone, Copy, PartialEq, Eq, Structural)]
pub enum ImageNavigationDirection {
    Previous,
    Next,
}

#[derive(Debug, Clone, Copy, PartialEq, Eq, Structural)]
pub enum AnimationCommand {
    TogglePlayback,
    StepFrame(AnimationFrameStepDirection),
    FirstFrame,
}

#[derive(Debug, Clone, Copy, PartialEq, Eq, Structural)]
pub enum CommandContext {
    StaticImage,
    AnimationImage,
}

#[derive(Debug, Clone, Copy, PartialEq, Eq, Structural)]
pub enum Command {
    OpenImage,
    ExportImage,
    CopyImageToClipboard,
    Navigate(ImageNavigationDirection),
    Animation(AnimationCommand),
    ContextualSpace,
    ZoomIn,
    ZoomOut,
    ActualSize,
    FitToWindow,
    RotateClockwise,
    RotateCounterClockwise,
    ToggleFullscreen,
    OpenAbout,
    OpenSettings,
    ExitFullscreenOrQuit,
    Quit,
}

#[derive(Debug, Clone, Copy, PartialEq, Eq, Structural)]
pub enum KeyCode {
    C,
    O,
    P,
    Q,
    R,
    S,
    Digit0,
    Digit1,
    Equals,
    Minus,
    NumpadAdd,
    NumpadSubtract,
    Left,
    Right,
    Space,
    Backspace,
    PageUp,
    PageDown,
    Home,
    BracketLeft,
    BracketRight,
    F4,
    F11,
    Enter,
    Escape,
}

/// Which of Control, Shift and Alt are held.
#[derive(Debug, Clone, Copy, PartialEq, Eq, Structural)]
pub struct KeyModifiers {
    control: bool,
    shift: bool,
    alt: bool,
}

impl KeyModifiers {
    pub closed spec fn spec_control(self) -> bool {
        self.control
    }

    pub closed spec fn spec_shift(self) -> bool {
        self.shift
    }

    pub closed spec fn spec_alt(self) -> bool {
        self.alt
    }

    pub proof fn lemma_eq(a: Self, b: Self)
        ensures
            (a == b) <==> (a.control() == b.control() && a.shift() == b.shift() && a.alt() == b.alt()),
    {
    }

    /// No modifier held.
    pub fn none() -> (modifiers: Self)
        ensures
            !modifiers.control() && !modifiers.shift() && !modifiers.alt(),
    {
        Self { control: false, shift: false, alt: false }
    }

    pub fn new(control: bool, shift: bool, alt: bool) -> (modifiers: Self)
        ensures
            modifiers.control() == control,
            modifiers.shift() == shift,
            modifiers.alt() == alt,
    {
        Self { control, shift, alt }
    }

    #[verifier::when_used_as_spec(spec_control)]
    pub fn control(self) -> (held: bool)
        ensures
            held == self.control(),
    {
        self.control
    }

    #[verifier::when_used_as_spec(spec_shift)]
    pub fn shift(self) -> (held: bool)
        ensures
            held == self.shift(),
    {
        self.shift
    }

    #[verifier::when_used_as_spec(spec_alt)]
    pub fn alt(self) -> (held: bool)
        ensures
            held == self.alt(),
    {
        self.alt
    }

    pub open spec fn is_only_control(self) -> bool {
        self.control() && !self.shift() && !self.alt()
    }

    pub open spec fn is_only_alt(self) -> bool {
        !self.control() && !self.shift() && self.alt()
    }

    fn only_control(self) -> (only: bool)
        ensures
            only == self.is_only_control(),
    {
        self.control && !self.shift && !self.alt
    }

    fn only_alt(self) -> (only: bool)
        ensures
            only == self.is_only_alt(),
    {
        !self.control && !self.shift && self.alt
    }

    fn control_without_alt(self) -> (held: bool)
        ensures
            held == (self.control() && !self.alt()),
    {
        self.control && !self.alt
    }

    fn has_command_modifier(self) -> (held: bool)
        ensures
            held == (self.control() || self.alt()),
    {
        self.control || self.alt
    }
}

/// A key press with the modifiers held at the time.
#[derive(Debug, Clone, Copy, PartialEq, Eq, Structural)]
pub struct KeyInput {
    key: KeyCode,
    modifiers: KeyModifiers,
}

impl KeyInput {
    pub closed spec fn spec_key(self) -> KeyCode {
        self.key
    }

    pub closed spec fn spec_modifiers(self) -> KeyModifiers {
        self.modifiers
    }

    pub fn new(key: KeyCode, modifiers: KeyModifiers) -> (input: Self)
        ensures
            input.key() == key,
            input.modifiers() == modifiers,
    {
        Self { key, modifiers }
    }

    #[verifier::when_used_as_spec(spec_key)]
    pub fn key(self) -> (key: KeyCode)
        ensures
            key == self.key(),
    {
        self.key
    }

    #[verifier::when_used_as_spec(spec_modifiers)]
    pub fn modifiers(self) -> (modifiers: KeyModifiers)
        ensures
            modifiers == self.modifiers(),
    {
        self.modifiers
    }
}

/// The shortcut table. Control or Alt chords come first; any other key held
/// with Control or Alt means nothing; Space is resolved later by context.
pub open spec fn key_command(key: KeyCode, m: KeyModifiers) -> Option<Command> {
    if key == KeyCode::O && m.is_only_control() {
        Some(Command::OpenImage)
    } else if key == KeyCode::S && m.control() && !m.alt() {
        Some(Command::ExportImage)
    } else if key == KeyCode::C && m.is_only_control() {
        Some(Command::CopyImageToClipboard)
    } else if key == KeyCode::Enter && m.is_only_alt() {
        Some(Command::ToggleFullscreen)
    } else if key == KeyCode::F4 && m.is_only_alt() {
        Some(Command::Quit)
    } else if m.control() || m.alt() {
        None
    } else {
        match key {
            KeyCode::Right | KeyCode::PageDown => Some(Command::Navigate(ImageNavigationDirection::Next)),
            KeyCode::Space => Some(Command::ContextualSpace),
            KeyCode::Left | KeyCode::Backspace | KeyCode::PageUp => Some(
                Command::Navigate(ImageNavigationDirection::Previous),
            ),
            KeyCode::P => Some(Command::Animation(AnimationCommand::TogglePlayback)),
            KeyCode::BracketLeft => Some(
                Command::Animation(AnimationCommand::StepFrame(AnimationFrameStepDirection::Previous)),
            ),
            KeyCode::BracketRight => Some(
                Command::Animation(AnimationCommand::StepFrame(AnimationFrameStepDirection::Next)),
            ),
            KeyCode::Home => Some(Command::Animation(AnimationCommand::FirstFrame)),
            KeyCode::Equals | KeyCode::NumpadAdd => Some(Command::ZoomIn),
            KeyCode::Minus | KeyCode::NumpadSubtract => Some(Command::ZoomOut),
            KeyCode::Digit1 => Some(Command::ActualSize),
            KeyCode::Digit0 => Some(Command::FitToWindow),
            KeyCode::R => if m.shift() {
                Some(Command::RotateCounterClockwise)
            } else {
                Some(Command::RotateClockwise)
            },
            KeyCode::F11 => Some(Command::ToggleFullscreen),
            KeyCode::Escape => Some(Command::ExitFullscreenOrQuit),
            KeyCode::Q => Some(Command::Quit),
            KeyCode::C | KeyCode::O | KeyCode::S | KeyCode::F4 | KeyCode::Enter => None,
        }
    }
}

/// Space navigates in a still image and plays or pauses an animation; every
/// other command stays as it is.
pub open spec fn contextual(command: Command, context: CommandContext) -> Command {
    match command {
        Command::ContextualSpace => match context {
            CommandContext::AnimationImage => Command::Animation(AnimationCommand::TogglePlayback),
            CommandContext::StaticImage => Command::Navigate(ImageNavigationDirection::Next),
        },
        _ => command,
    }
}

pub fn command_for_key_input(input: KeyInput) -> (command: Option<Command>)
    ensures
        command == (match key_command(input.key(), input.modifiers()) {
            Some(c) => Some(contextual(c, CommandContext::StaticImage)),
            None => None,
        }),
{
    command_for_key_input_with_context(input, CommandContext::StaticImage)
}

pub fn command_for_key_input_with_context(input: KeyInput, context: CommandContext) -> (command: Option<Command>)
    ensures
        command == (match key_command(input.key(), input.modifiers()) {
            Some(c) => Some(contextual(c, context)),
            None => None,
        }),
{
    match command_for_key_input_raw(input) {
        Some(command) => Some(resolve_contextual_command(command, context)),
        None => None,
    }
}

pub fn resolve_contextual_command(command: Command, context: CommandContext) -> (resolved: Command)
    ensures
        resolved == contextual(command, context),
{
    match (command, context) {
        (Command::ContextualSpace, CommandContext::AnimationImage) => Command::Animation(
            AnimationCommand::TogglePlayback,
        ),
        (Command::ContextualSpace, CommandContext::StaticImage) => Command::Navigate(
            ImageNavigationDirection::Next,
        ),
        (command, _) => command,
    }
}

fn command_for_key_input_raw(input: KeyInput) -> (command: Option<Command>)
    ensures
        command == key_command(input.key(), input.modifiers()),
{
    let key = input.key();
    let modifiers = input.modifiers();
    let only_control = modifiers.only_control();
    let only_alt = modifiers.only_alt();
    match key {
        KeyCode::O => if only_control {
            return Some(Command::OpenImage);
        },
        KeyCode::S => if modifiers.control_without_alt() {
            return Some(Command::ExportImage);
        },
        KeyCode::C => if only_control {
            return Some(Command::CopyImageToClipboard);
        },
        KeyCode::Enter => if only_alt {
            return Some(Command::ToggleFullscreen);
        },
        KeyCode::F4 => if only_alt {
            return Some(Command::Quit);
        },
        _ => {},
    }
    if modifiers.has_command_modifier() {
        return None;
    }
    match key {
        KeyCode::Right | KeyCode::PageDown => Some(Command::Navigate(ImageNavigationDirection::Next)),
        KeyCode::Space => Some(Command::ContextualSpace),
        KeyCode::Left | KeyCode::Backspace | KeyCode::PageUp => Some(
            Command::Navigate(ImageNavigationDirection::Previous),
        ),
        KeyCode::P => Some(Command::Animation(AnimationCommand::TogglePlayback)),
        KeyCode::BracketLeft => Some(
            Command::Animation(AnimationCommand::StepFrame(AnimationFrameStepDirection::Previous)),
        ),
        KeyCode::BracketRight => Some(
            Command::Animation(AnimationCommand::StepFrame(AnimationFrameStepDirection::Next)),
        ),
        KeyCode::Home => Some(Command::Animation(AnimationCommand::FirstFrame)),
        KeyCode::Equals | KeyCode::NumpadAdd => Some(Command::ZoomIn),
        KeyCode::Minus | KeyCode::NumpadSubtract => Some(Command::ZoomOut),
        KeyCode::Digit1 => Some(Command::ActualSize),
        KeyCode::Digit0 => Some(Command::FitToWindow),
        KeyCode::R => {
            if modifiers.shift() {
                Some(Command::RotateCounterClockwise)
            } else {
                Some(Command::RotateClockwise)
            }
        },
        KeyCode::F11 => Some(Command::ToggleFullscreen),
        KeyCode::Escape => Some(Command::ExitFullscreenOrQuit),
        KeyCode::Q => Some(Command::Quit),
        KeyCode::C | KeyCode::O | KeyCode::S | KeyCode::F4 | KeyCode::Enter => None,
    }
}

/// A chord with Control or Alt other than the five listed shortcuts does
/// nothing, and plain keys never open, export or copy.
pub proof fn law_modifier_chords(key: KeyCode, m: KeyModifiers)
    ensures
        (m.control() || m.alt()) && key_command(key, m) is Some ==> {
            ||| key == KeyCode::O
            ||| key == KeyCode::S
            ||| key == KeyCode::C
            ||| key == KeyCode::Enter
            ||| key == KeyCode::F4
        },
        !m.control() && !m.alt() ==> key_command(key, m) != Some(Command::OpenImage) && key_command(key, m)
            != Some(Command::ExportImage) && key_command(key, m) != Some(Command::CopyImageToClipboard),
{
}

/// Resolving by context never leaves the contextual Space command behind, and
/// resolving twice is resolving once.
pub proof fn law_contextual_resolution(command: Command, context: CommandContext)
    ensures
        contextual(command, context) != Command::ContextualSpace,
        contextual(contextual(command, context), context) == contextual(command, context),
{
}

} // verus!
