use vstd::prelude::*;

use crate::target::{HarnessTarget, SystemTarget};
use crate::text::{decimal, push_decimal, push_str};

verus! {

/// The focus state of one target as the system last knew it.
#[derive(Debug, Clone, Copy, PartialEq, Eq, Structural)]
pub enum FocusState {
    Focused { target: SystemTarget },
    Unfocused,
    Unknown,
}

impl FocusState {
    /// Whether this state protects the harness: only a focus held on a target that the
    /// harness owns does.
    pub open spec fn spec_protects(self, harness: HarnessTarget) -> bool {
        match self {
            FocusState::Focused { target } => harness@.target == target,
            FocusState::Unfocused | FocusState::Unknown => false,
        }
    }

    pub fn protects(&self, target: &HarnessTarget) -> (protected: bool)
        ensures
            protected == self.spec_protects(*target),
    {
        match self {
            Self::Focused { target: focused } => target.owns_target(*focused),
            Self::Unfocused | Self::Unknown => false,
        }
    }
}

/// One observation of a target's focus, stamped with a generation.
#[derive(Debug, Clone, Copy, PartialEq, Eq, Structural)]
pub struct FocusObservation {
    pub target: SystemTarget,
    pub focused: bool,
    pub generation: u64,
}

impl FocusObservation {
    pub fn new(target: SystemTarget, focused: bool, generation: u64) -> (observation: Self)
        ensures
            observation == (FocusObservation { target, focused, generation }),
    {
        Self { target, focused, generation }
    }

    /// The focus state that this observation reports.
    pub open spec fn spec_state(self) -> FocusState {
        if self.focused {
            FocusState::Focused { target: self.target }
        } else {
            FocusState::Unfocused
        }
    }

    /// An observation protects a harness exactly when it reports focus on a target that
    /// the harness owns.
    pub open spec fn spec_protects(self, harness: HarnessTarget) -> bool {
        self.focused && harness@.target == self.target
    }

    pub fn protects(&self, target: &HarnessTarget) -> (protected: bool)
        ensures
            protected == self.spec_protects(*target),
    {
        self.focused && target.owns_target(self.target)
    }
}

/// The NOTA text of an observation: `(FocusObservation <target> <focused> <generation>)`,
/// the target written as its record, such as `(NiriWindow 42)`.
pub open spec fn spec_observation_text(observation: FocusObservation) -> Seq<char> {
    let target = match observation.target {
        SystemTarget::NiriWindow(window) => "(NiriWindow "@ + decimal(window.id.0 as nat) + ")"@,
    };
    let focused = if observation.focused {
        "true"@
    } else {
        "false"@
    };
    "(FocusObservation "@ + target + " "@ + focused + " "@ + decimal(observation.generation as nat)
        + ")"@
}

impl FocusObservation {
    /// The NOTA text that a one-shot observation is written out as.
    pub fn to_nota(&self) -> (text: String)
        ensures
            text@ == spec_observation_text(*self),
    {
        let mut buffer: String = String::new();
        push_str(&mut buffer, "(FocusObservation ");
        match self.target {
            SystemTarget::NiriWindow(window) => {
                push_str(&mut buffer, "(NiriWindow ");
                push_decimal(&mut buffer, window.id.0);
                push_str(&mut buffer, ")");
            },
        }
        push_str(&mut buffer, " ");
        if self.focused {
            push_str(&mut buffer, "true");
        } else {
            push_str(&mut buffer, "false");
        }
        push_str(&mut buffer, " ");
        push_decimal(&mut buffer, self.generation);
        push_str(&mut buffer, ")");
        proof {
            assert(buffer@ =~= spec_observation_text(*self));
        }
        buffer
    }
}

/// What is known of a prompt's input buffer.
#[derive(Debug, Clone, Copy, PartialEq, Eq, Structural)]
pub enum InputBufferState {
    Empty,
    Occupied,
    Unknown,
}

impl InputBufferState {
    /// Injection is accepted only into a buffer known to be empty.
    pub fn accepts_injection(&self) -> (accepts: bool)
        ensures
            accepts == (*self == InputBufferState::Empty),
    {
        match self {
            Self::Empty => true,
            Self::Occupied | Self::Unknown => false,
        }
    }
}

/// An observation protects a harness exactly when the focus state that it reports does.
pub proof fn lemma_observation_protects_as_its_state(
    observation: FocusObservation,
    harness: HarnessTarget,
)
    ensures
        observation.spec_protects(harness) == observation.spec_state().spec_protects(harness),
{
}

} // verus!

verus! {

/// The number written last in an observation's text is the whole generation: the text
/// ends with a space, a run of decimal digits and `)`, and reading those digits back gives
/// the generation, for every `u64` generation.
pub proof fn lemma_observation_text_ends_with_its_generation(observation: FocusObservation)
    ensures
        exists|prefix: Seq<char>, digits: Seq<char>|
            #![trigger prefix + digits]
            spec_observation_text(observation) == prefix + digits + ")"@ && prefix.len() > 0
                && prefix.last() == ' ' && digits.len() > 0 && (forall|i: int|
                0 <= i < digits.len() ==> crate::nota::is_decimal_digit(#[trigger] digits[i]))
                && crate::nota::decimal_value(digits) == observation.generation,
{
    reveal_strlit(" ");
    reveal_strlit(")");
    let digits = decimal(observation.generation as nat);
    crate::text::lemma_decimal_digits(observation.generation as nat);
    crate::nota::lemma_decimal_round_trip(observation.generation as nat);
    let target = match observation.target {
        SystemTarget::NiriWindow(window) => "(NiriWindow "@ + decimal(window.id.0 as nat) + ")"@,
    };
    let focused = if observation.focused {
        "true"@
    } else {
        "false"@
    };
    let prefix = "(FocusObservation "@ + target + " "@ + focused + " "@;
    assert(spec_observation_text(observation) =~= prefix + digits + ")"@);
    assert(prefix.last() == ' ');
    assert(forall|i: int| 0 <= i < digits.len() ==> crate::nota::is_decimal_digit(#[trigger] digits[i]));
}

} // verus!
