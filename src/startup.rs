use vstd::prelude::*;
use crate::bridge::Session;
use crate::text::{decimal, push_decimal};

verus! {

/// The faults of startup and of user actions.
#[derive(Clone, Copy, Debug, PartialEq, Eq, Structural)]
pub enum PlayerError {
    /// The engine could not be created or initialized.
    EngineInitFailed,
    /// The native video surface could not be created.
    PlatformSurfaceCreationFailed,
    /// Setting an engine property failed with this status.
    PropertySetFailed(i32),
    /// The UI window is not a native window of the supported kind.
    UnsupportedWindowingBackend,
}

/// The engine options that startup sets, in the order it sets them.
#[derive(Clone, Copy, Debug, PartialEq, Eq, Structural)]
pub enum EngineOption {
    Vo,
    Hwdec,
    Terminal,
    KeepOpen,
    OsdLevel,
    OsdBar,
    InputDefaultBindings,
    InputVoKeyboard,
    Wid,
}

/// The engine's name for an option.
pub open spec fn option_name(o: EngineOption) -> Seq<char> {
    match o {
        EngineOption::Vo => seq!['v', 'o'],
        EngineOption::Hwdec => seq!['h', 'w', 'd', 'e', 'c'],
        EngineOption::Terminal => seq!['t', 'e', 'r', 'm', 'i', 'n', 'a', 'l'],
        EngineOption::KeepOpen => seq!['k', 'e', 'e', 'p', '-', 'o', 'p', 'e', 'n'],
        EngineOption::OsdLevel => seq!['o', 's', 'd', '-', 'l', 'e', 'v', 'e', 'l'],
        EngineOption::OsdBar => seq!['o', 's', 'd', '-', 'b', 'a', 'r'],
        EngineOption::InputDefaultBindings => seq![
            'i', 'n', 'p', 'u', 't', '-', 'd', 'e', 'f', 'a', 'u', 'l', 't', '-',
            'b', 'i', 'n', 'd', 'i', 'n', 'g', 's',
        ],
        EngineOption::InputVoKeyboard => seq![
            'i', 'n', 'p', 'u', 't', '-', 'v', 'o', '-', 'k', 'e', 'y', 'b', 'o', 'a', 'r', 'd',
        ],
        EngineOption::Wid => seq!['w', 'i', 'd'],
    }
}

/// The value startup gives an option; the window id is the video surface's
/// identifier in decimal.
pub open spec fn option_value(o: EngineOption, surface: u64) -> Seq<char> {
    match o {
        EngineOption::Vo => seq!['g', 'p', 'u'],
        EngineOption::Hwdec => seq!['a', 'u', 't', 'o'],
        EngineOption::Terminal => seq!['n', 'o'],
        EngineOption::KeepOpen => seq!['y', 'e', 's'],
        EngineOption::OsdLevel => seq!['0'],
        EngineOption::OsdBar => seq!['n', 'o'],
        EngineOption::InputDefaultBindings => seq!['n', 'o'],
        EngineOption::InputVoKeyboard => seq!['n', 'o'],
        EngineOption::Wid => decimal(surface as nat),
    }
}

impl EngineOption {
    /// The engine's name for this option.
    pub fn name(&self) -> (r: &'static str)
        ensures
            r@ == option_name(*self),
    {
        proof {
            reveal_strlit("vo");
            reveal_strlit("hwdec");
            reveal_strlit("terminal");
            reveal_strlit("keep-open");
            reveal_strlit("osd-level");
            reveal_strlit("osd-bar");
            reveal_strlit("input-default-bindings");
            reveal_strlit("input-vo-keyboard");
            reveal_strlit("wid");
        }
        let r = match self {
            EngineOption::Vo => "vo",
            EngineOption::Hwdec => "hwdec",
            EngineOption::Terminal => "terminal",
            EngineOption::KeepOpen => "keep-open",
            EngineOption::OsdLevel => "osd-level",
            EngineOption::OsdBar => "osd-bar",
            EngineOption::InputDefaultBindings => "input-default-bindings",
            EngineOption::InputVoKeyboard => "input-vo-keyboard",
            EngineOption::Wid => "wid",
        };
        assert(r@ =~= option_name(*self));
        r
    }

    /// The value startup gives this option for a video surface.
    pub fn value(&self, surface: u64) -> (r: String)
        ensures
            r@ == option_value(*self, surface),
    {
        proof {
            reveal_strlit("gpu");
            reveal_strlit("auto");
            reveal_strlit("no");
            reveal_strlit("yes");
            reveal_strlit("0");
        }
        let mut r = String::new();
        match self {
            EngineOption::Vo => r.append("gpu"),
            EngineOption::Hwdec => r.append("auto"),
            EngineOption::Terminal => r.append("no"),
            EngineOption::KeepOpen => r.append("yes"),
            EngineOption::OsdLevel => r.append("0"),
            EngineOption::OsdBar => r.append("no"),
            EngineOption::InputDefaultBindings => r.append("no"),
            EngineOption::InputVoKeyboard => r.append("no"),
            EngineOption::Wid => push_decimal(&mut r, surface),
        }
        assert(r@ =~= option_value(*self, surface));
        r
    }
}

/// One step of engine startup, carried out in order.
#[derive(Clone, Copy, Debug, PartialEq, Eq, Structural)]
pub enum StartupStep {
    /// Set this option to its value for the video surface.
    SetOption(EngineOption),
    /// Initialize the engine.
    Initialize,
    /// Load the initial content.
    LoadInitial,
}

/// The startup steps once a video surface exists.
pub open spec fn startup_steps() -> Seq<StartupStep> {
    seq![
        StartupStep::SetOption(EngineOption::Vo),
        StartupStep::SetOption(EngineOption::Hwdec),
        StartupStep::SetOption(EngineOption::Terminal),
        StartupStep::SetOption(EngineOption::KeepOpen),
        StartupStep::SetOption(EngineOption::OsdLevel),
        StartupStep::SetOption(EngineOption::OsdBar),
        StartupStep::SetOption(EngineOption::InputDefaultBindings),
        StartupStep::SetOption(EngineOption::InputVoKeyboard),
        StartupStep::SetOption(EngineOption::Wid),
        StartupStep::Initialize,
        StartupStep::LoadInitial,
    ]
}

/// The startup steps, in order.
pub fn startup_plan() -> (r: Vec<StartupStep>)
    ensures
        r@ == startup_steps(),
{
    let r = vec![
        StartupStep::SetOption(EngineOption::Vo),
        StartupStep::SetOption(EngineOption::Hwdec),
        StartupStep::SetOption(EngineOption::Terminal),
        StartupStep::SetOption(EngineOption::KeepOpen),
        StartupStep::SetOption(EngineOption::OsdLevel),
        StartupStep::SetOption(EngineOption::OsdBar),
        StartupStep::SetOption(EngineOption::InputDefaultBindings),
        StartupStep::SetOption(EngineOption::InputVoKeyboard),
        StartupStep::SetOption(EngineOption::Wid),
        StartupStep::Initialize,
        StartupStep::LoadInitial,
    ];
    assert(r@ =~= startup_steps());
    r
}

impl Session {
    /// Takes the video surface that startup created and returns the steps that
    /// configure, initialize and load the engine. A zero identifier means that
    /// surface creation failed: the session stays as it was.
    pub fn start(&mut self, surface: u64) -> (r: Result<Vec<StartupStep>, PlayerError>)
        ensures
            surface == 0 ==> r == Err::<Vec<StartupStep>, PlayerError>(PlayerError::PlatformSurfaceCreationFailed)
                && *final(self) == *old(self),
            surface != 0 ==> r is Ok && r->Ok_0@ == startup_steps()
                && final(self).surface == surface
                && final(self).suppress_seek_echo == old(self).suppress_seek_echo,
    {
        if surface == 0 {
            Err(PlayerError::PlatformSurfaceCreationFailed)
        } else {
            self.surface = surface;
            Ok(startup_plan())
        }
    }
}

/// The result of engine initialization from the engine's status code: negative
/// is a failure.
pub fn init_status(status: i32) -> (r: Result<(), PlayerError>)
    ensures
        status < 0 ==> r == Err::<(), PlayerError>(PlayerError::EngineInitFailed),
        status >= 0 ==> r is Ok,
{
    if status < 0 { Err(PlayerError::EngineInitFailed) } else { Ok(()) }
}

/// The result of setting a property from the engine's status code: negative is
/// a failure that carries the status.
pub fn property_set_status(status: i32) -> (r: Result<(), PlayerError>)
    ensures
        status < 0 ==> r == Err::<(), PlayerError>(PlayerError::PropertySetFailed(status)),
        status >= 0 ==> r is Ok,
{
    if status < 0 { Err(PlayerError::PropertySetFailed(status)) } else { Ok(()) }
}

/// Startup never initializes the engine before it has set the window id, whose
/// value is the created surface's identifier.
pub proof fn wid_set_before_initialize(surface: u64)
    ensures
        forall|i: int| 0 <= i < startup_steps().len() && startup_steps()[i] is Initialize ==>
            exists|j: int| 0 <= j < i && startup_steps()[j] == StartupStep::SetOption(EngineOption::Wid),
        option_value(EngineOption::Wid, surface) == decimal(surface as nat),
{
    let s = startup_steps();
    assert forall|i: int| 0 <= i < s.len() && s[i] is Initialize implies
        exists|j: int| 0 <= j < i && s[j] == StartupStep::SetOption(EngineOption::Wid) by {
        assert(i == 9);
        assert(s[8] == StartupStep::SetOption(EngineOption::Wid));
    }
}

} // verus!
