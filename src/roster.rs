//! The roster listing and the registration of new tracked identities.

use vstd::prelude::*;
use crate::presence::PresenceState;

verus! {

/// The identity parsed from decimal text, as `u64`'s `FromStr` reads it.
pub uninterp spec fn decimal_id(text: Seq<char>) -> Option<u64>;

/// Why an identity could not be added.
#[derive(Clone, Copy, Debug, PartialEq, Eq, Structural)]
pub enum AccountError {
    /// The text is not an identity number.
    InvalidId,
}

/// Relies on `u64`'s `FromStr`: the number written in decimal, or nothing
/// where the text is not one that fits.
#[verifier::external_body]
fn parse_decimal(text: &str) -> (r: Option<u64>)
    ensures
        r == decimal_id(text@),
        text@.len() == 0 ==> r is None,
{
    text.parse::<u64>().ok()
}

/// Adds the identity written in `text` to the tracked ones.
pub fn add_account(ids: &mut Vec<u64>, text: &str) -> (r: Result<u64, AccountError>)
    ensures
        match decimal_id(text@) {
            Some(id) => r == Ok::<u64, AccountError>(id) && final(ids)@ == old(ids)@.push(id),
            None => r == Err::<u64, AccountError>(AccountError::InvalidId) && final(ids)@ == old(
                ids,
            )@,
        },
{
    match parse_decimal(text) {
        Some(id) => {
            ids.push(id);
            Ok(id)
        },
        None => Err(AccountError::InvalidId),
    }
}

/// One roster line: the name, then what the identity is doing, or "None".
pub open spec fn roster_line_text(state: PresenceState) -> Seq<char> {
    state.profile_name@ + ": "@ + match state.activity {
        Some(a) => a@,
        None => "None"@,
    }
}

/// The roster: one line per state, joined by line breaks.
pub open spec fn roster_text(states: Seq<PresenceState>) -> Seq<char>
    decreases states.len(),
{
    if states.len() == 0 {
        Seq::empty()
    } else if states.len() == 1 {
        roster_line_text(states[0])
    } else {
        roster_text(states.drop_last()) + "\n"@ + roster_line_text(states.last())
    }
}

/// The roster line of one identity.
pub fn roster_line(state: &PresenceState) -> (r: String)
    ensures
        r@ == roster_line_text(*state),
{
    let mut line = String::from_str(state.profile_name.as_str());
    line.append(": ");
    match &state.activity {
        Some(a) => line.append(a.as_str()),
        None => line.append("None"),
    }
    line
}

/// The roster of the given states, one line each, in order.
pub fn roster(states: &Vec<PresenceState>) -> (r: String)
    ensures
        r@ == roster_text(states@),
{
    let mut text = String::new();
    let mut i: usize = 0;
    while i < states.len()
        invariant
            i <= states@.len(),
            text@ == roster_text(states@.take(i as int)),
        decreases states@.len() - i,
    {
        assert(states@.take(i + 1).drop_last() =~= states@.take(i as int));
        if i > 0 {
            text.append("\n");
        }
        let line = roster_line(&states[i]);
        text.append(line.as_str());
        proof {
            if i == 0 {
                assert(text@ =~= roster_text(states@.take(1)));
            }
        }
        i = i + 1;
    }
    assert(states@.take(states@.len() as int) =~= states@);
    text
}

/// The confirmation sent after adding an identity.
pub fn added_text(text: &str) -> (r: String)
    ensures
        r@ == "Added "@ + text@ + " to the list"@,
{
    let mut s = String::from_str("Added ");
    s.append(text);
    s.append(" to the list");
    s
}

} // verus!
