use vstd::prelude::*;

verus! {

/// The text of the failure to decode the value that a component is attached with.
pub open spec fn initial_data_message(detail: Seq<char>) -> Seq<char> {
    "Failed to deserialize initial data: "@ + detail
}

/// The text of the failure to decode the value that a component is updated with.
pub open spec fn updated_data_message(detail: Seq<char>) -> Seq<char> {
    "Failed to deserialize updated data: "@ + detail
}

/// The text of the diagnostic for a callback that failed with `detail`.
pub open spec fn callback_message(detail: Seq<char>) -> Seq<char> {
    "Error calling callback: "@ + detail
}

/// A value from the host did not have the shape that the component's cell holds.
/// Nothing was changed; the host may try again with corrected data.
#[derive(Clone, Debug, PartialEq, Eq)]
pub struct DeserializationError {
    message: String,
}

impl DeserializationError {
    /// The diagnostic, as the host reads it.
    pub closed spec fn view(&self) -> Seq<char> {
        self.message@
    }

    /// The failure to decode an initial value, of which the decoder said `detail`.
    pub fn initial(detail: &str) -> (error: Self)
        ensures
            error@ == initial_data_message(detail@),
    {
        DeserializationError {
            message: String::from_str("Failed to deserialize initial data: ").concat(detail),
        }
    }

    /// The failure to decode a new value, of which the decoder said `detail`.
    pub fn updated(detail: &str) -> (error: Self)
        ensures
            error@ == updated_data_message(detail@),
    {
        DeserializationError {
            message: String::from_str("Failed to deserialize updated data: ").concat(detail),
        }
    }

    /// The diagnostic, as the host reads it.
    pub fn message(&self) -> (text: &str)
        ensures
            text@ == self@,
    {
        self.message.as_str()
    }
}

/// The diagnostics for the observers that failed, in the order of `outcomes`.
pub open spec fn diagnostics_of(outcomes: Seq<Option<Result<(), String>>>) -> Seq<Seq<char>>
    decreases outcomes.len(),
{
    if outcomes.len() == 0 {
        Seq::empty()
    } else {
        let earlier = diagnostics_of(outcomes.drop_last());
        match outcomes.last() {
            Some(Err(detail)) => earlier.push(callback_message(detail@)),
            _ => earlier,
        }
    }
}

/// One line for each observer that failed when it was notified, in the order of
/// `outcomes`, for the host's diagnostic channel. A failure goes no further than this.
pub fn diagnostics(outcomes: &Vec<Option<Result<(), String>>>) -> (lines: Vec<String>)
    ensures
        lines@.map_values(|line: String| line@) == diagnostics_of(outcomes@),
{
    let mut lines: Vec<String> = Vec::new();
    let mut i: usize = 0;
    while i < outcomes.len()
        invariant
            i <= outcomes@.len(),
            lines@.map_values(|line: String| line@) == diagnostics_of(outcomes@.take(i as int)),
        decreases outcomes@.len() - i,
    {
        proof {
            assert(outcomes@.take(i + 1).drop_last() =~= outcomes@.take(i as int));
        }
        match &outcomes[i] {
            Some(Err(detail)) => {
                let ghost before = lines@;
                let line = String::from_str("Error calling callback: ").concat(detail.as_str());
                lines.push(line);
                proof {
                    assert(lines@.map_values(|line: String| line@) =~= before.map_values(
                        |line: String| line@,
                    ).push(callback_message(detail@)));
                }
            },
            _ => {},
        }
        i += 1;
    }
    proof {
        assert(outcomes@.take(i as int) =~= outcomes@);
    }
    lines
}

} // verus!
