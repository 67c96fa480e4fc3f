//! The colour themes an animation exists in, and how the platform's
//! appearance setting is turned into one of them.

use vstd::prelude::*;

verus! {

/// The colour theme of the icons on display.
#[derive(Clone, Copy, Debug, PartialEq, Eq, Structural)]
pub enum Theme {
    Dark,
    Light,
}

impl Theme {
    /// The theme used whenever the platform gives no usable answer.
    pub open spec fn spec_fallback() -> Theme {
        Theme::Dark
    }

    /// The theme used whenever the platform gives no usable answer.
    pub fn fallback() -> (t: Theme)
        ensures
            t == Theme::spec_fallback(),
    {
        Theme::Dark
    }

    /// The position of this theme's frames among a pet's animation sets.
    pub open spec fn slot(self) -> int {
        match self {
            Theme::Dark => 0,
            Theme::Light => 1,
        }
    }

    /// The position of this theme's frames among a pet's animation sets.
    pub fn index(self) -> (i: usize)
        ensures
            i == self.slot(),
    {
        match self {
            Theme::Dark => 0,
            Theme::Light => 1,
        }
    }
}

/// The status with which the platform reports that a settings call succeeded.
pub const STATUS_SUCCESS: u32 = 0;

/// The kind the platform gives a setting that is stored as a 32-bit number.
pub const KIND_DWORD: u32 = 4;

/// What the platform answered to one settings call: its status and the number
/// it handed out. The number is the setting's kind after `QueryKind` and the
/// setting's data after `ReadValue`; after `OpenKey` it is not looked at.
#[derive(Clone, Copy, Debug, PartialEq, Eq, Structural)]
pub struct ProbeReply {
    pub status: u32,
    pub value: u32,
}

/// Where the look-up of the "apps use the light theme" setting stands: the
/// call to make next, or the theme it ended with.
#[derive(Clone, Copy, Debug, PartialEq, Eq, Structural)]
pub enum ProbeStep {
    /// Open the personalisation key of the current user.
    OpenKey,
    /// Ask for the kind and size of the light-theme value.
    QueryKind,
    /// Read the light-theme value.
    ReadValue,
    /// The look-up is over.
    Done(Theme),
}

impl ProbeStep {
    /// The step that follows `self` once the platform has answered `reply`.
    ///
    /// A failed call, or a value that is not a 32-bit number, ends the look-up
    /// with the fallback theme. A value of zero means dark, any other light.
    pub open spec fn spec_next(self, reply: ProbeReply) -> ProbeStep {
        match self {
            ProbeStep::OpenKey => if reply.status == STATUS_SUCCESS {
                ProbeStep::QueryKind
            } else {
                ProbeStep::Done(Theme::spec_fallback())
            },
            ProbeStep::QueryKind => if reply.status == STATUS_SUCCESS && reply.value == KIND_DWORD {
                ProbeStep::ReadValue
            } else {
                ProbeStep::Done(Theme::spec_fallback())
            },
            ProbeStep::ReadValue => if reply.status != STATUS_SUCCESS {
                ProbeStep::Done(Theme::spec_fallback())
            } else if reply.value == 0 {
                ProbeStep::Done(Theme::Dark)
            } else {
                ProbeStep::Done(Theme::Light)
            },
            ProbeStep::Done(theme) => ProbeStep::Done(theme),
        }
    }

    /// The first step of a look-up.
    pub fn start() -> (step: ProbeStep)
        ensures
            step == ProbeStep::OpenKey,
    {
        ProbeStep::OpenKey
    }

    /// The step that follows `self` once the platform has answered `reply`.
    pub fn next(self, reply: ProbeReply) -> (step: ProbeStep)
        ensures
            step == self.spec_next(reply),
    {
        match self {
            ProbeStep::OpenKey => {
                if reply.status == STATUS_SUCCESS {
                    ProbeStep::QueryKind
                } else {
                    ProbeStep::Done(Theme::fallback())
                }
            },
            ProbeStep::QueryKind => {
                if reply.status != STATUS_SUCCESS {
                    ProbeStep::Done(Theme::fallback())
                } else if reply.value != KIND_DWORD {
                    ProbeStep::Done(Theme::fallback())
                } else {
                    ProbeStep::ReadValue
                }
            },
            ProbeStep::ReadValue => {
                if reply.status == STATUS_SUCCESS {
                    if reply.value == 0 {
                        ProbeStep::Done(Theme::Dark)
                    } else {
                        ProbeStep::Done(Theme::Light)
                    }
                } else {
                    ProbeStep::Done(Theme::fallback())
                }
            },
            ProbeStep::Done(theme) => ProbeStep::Done(theme),
        }
    }

    /// The theme the look-up ended with, if it is over.
    pub fn outcome(self) -> (theme: Option<Theme>)
        ensures
            theme == match self {
                ProbeStep::Done(t) => Some(t),
                _ => None::<Theme>,
            },
    {
        match self {
            ProbeStep::Done(t) => Some(t),
            _ => None,
        }
    }
}

/// The theme that three answers of the platform amount to: light exactly when
/// every call succeeded, the value is a 32-bit number, and it is not zero.
pub open spec fn theme_of_replies(opened: ProbeReply, kind: ProbeReply, data: ProbeReply) -> Theme {
    if opened.status == STATUS_SUCCESS && kind.status == STATUS_SUCCESS && kind.value == KIND_DWORD
        && data.status == STATUS_SUCCESS && data.value != 0 {
        Theme::Light
    } else {
        Theme::Dark
    }
}

/// A look-up that is fed the platform's three answers in turn is over, and has
/// found the theme that the answers amount to. A look-up that is over stays so.
pub proof fn lemma_probe_outcome(opened: ProbeReply, kind: ProbeReply, data: ProbeReply)
    ensures
        ProbeStep::OpenKey.spec_next(opened).spec_next(kind).spec_next(data) == ProbeStep::Done(
            theme_of_replies(opened, kind, data),
        ),
        forall|theme: Theme, reply: ProbeReply|
            #[trigger] ProbeStep::Done(theme).spec_next(reply) == ProbeStep::Done(theme),
{
}

} // verus!
