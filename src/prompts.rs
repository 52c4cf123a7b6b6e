//! What the interactive data entry asks, and how it judges the answers. The
//! terminal prompting itself happens outside the library.

use vstd::prelude::*;

use crate::models::DataSelector;
use crate::text::{decimal, push_decimal};

verus! {

/// The fewest characters that a password may have.
pub const MIN_PASSWORD_CHARS: usize = 4;

/// The instruction shown with every prompt that may be skipped.
pub open spec fn skip_instruction() -> Seq<char> {
    "Skip with ESC"@
}

/// The help line of a skippable prompt: the skip instruction, followed by
/// `: ` and the help text where there is one.
pub fn format_help_skippable(help: Option<String>) -> (r: String)
    ensures
        match help {
            Some(h) => r@ == skip_instruction() + ": "@ + h@,
            None => r@ == skip_instruction(),
        },
{
    let mut r = String::from_str("Skip with ESC");
    match help {
        Some(h) => {
            r.append(": ");
            r.append(h.as_str());
            assert(r@ =~= skip_instruction() + ": "@ + h@);
        },
        None => {},
    }
    r
}

/// A password prompt: its question, its help line, whether the answer must be
/// typed twice, and how many characters it needs at least.
#[derive(Clone, Debug)]
pub struct PasswordPrompt {
    pub prompt: String,
    pub help: String,
    pub with_confirmation: bool,
    pub min_chars: usize,
}

/// The message that rejects a password shorter than `min` characters.
pub open spec fn too_short_message(min: nat) -> Seq<char> {
    "Password must have at least "@ + decimal(min) + " characters."@
}

impl PasswordPrompt {
    /// Whether `input` is long enough, counted in characters.
    pub fn accepts(&self, input: &str) -> (r: bool)
        ensures
            r == (input@.len() >= self.min_chars),
    {
        input.unicode_len() >= self.min_chars
    }

    /// The message shown for an answer that is too short.
    pub fn rejection_message(&self) -> (r: String)
        ensures
            r@ == too_short_message(self.min_chars as nat),
    {
        let mut r = String::from_str("Password must have at least ");
        push_decimal(&mut r, self.min_chars as u64);
        r.append(" characters.");
        r
    }
}

/// A password prompt whose help line tells how to reveal the typed text.
fn password_prompt(with_confirmation: bool, prompt: &str, help: &str) -> (r: PasswordPrompt)
    ensures
        r.prompt@ == prompt@,
        r.help@ == help@ + " (Press CTRL+R to reveal)"@,
        r.with_confirmation == with_confirmation,
        r.min_chars == MIN_PASSWORD_CHARS,
{
    let mut h = String::from_str(help);
    h.append(" (Press CTRL+R to reveal)");
    PasswordPrompt {
        prompt: String::from_str(prompt),
        help: h,
        with_confirmation,
        min_chars: MIN_PASSWORD_CHARS,
    }
}

/// The prompt for the password that encrypts the SMTP app password, asked
/// once, without confirmation.
pub fn ask_for_email_encryption_password() -> (r: PasswordPrompt)
    ensures
        r.prompt@ == "SMTP App Password Encryption"@,
        r.help@ == "Used to encrypt the SMTP app password"@ + " (Press CTRL+R to reveal)"@,
        !r.with_confirmation,
        r.min_chars == MIN_PASSWORD_CHARS,
{
    password_prompt(false, "SMTP App Password Encryption", "Used to encrypt the SMTP app password")
}

/// The parts of the data that the entry walks through, in order.
pub open spec fn editable_parts() -> Seq<DataSelector> {
    seq![
        DataSelector::Vendor,
        DataSelector::Client,
        DataSelector::Information,
        DataSelector::PaymentInfo,
        DataSelector::ServiceFees,
    ]
}

/// Whether a part is asked for: every part without a selector, else the parts
/// that the selector includes.
pub open spec fn is_asked(selector: Option<DataSelector>, part: DataSelector) -> bool {
    match selector {
        None => true,
        Some(s) => s == DataSelector::All || s == part,
    }
}

/// The parts among `parts` that are asked for, in their order.
pub open spec fn asked_parts(selector: Option<DataSelector>, parts: Seq<DataSelector>) -> Seq<DataSelector>
    decreases parts.len(),
{
    if parts.len() == 0 {
        Seq::empty()
    } else {
        let front = asked_parts(selector, parts.drop_last());
        if is_asked(selector, parts.last()) {
            front.push(parts.last())
        } else {
            front
        }
    }
}

/// The parts of the data to ask for, in the order of the entry; the others keep
/// their current values.
pub fn ask_for_data(data_selector: Option<DataSelector>) -> (r: Vec<DataSelector>)
    ensures
        r@ == asked_parts(data_selector, editable_parts()),
{
    let parts = vec![
        DataSelector::Vendor,
        DataSelector::Client,
        DataSelector::Information,
        DataSelector::PaymentInfo,
        DataSelector::ServiceFees,
    ];
    assert(parts@ =~= editable_parts());
    let mut r: Vec<DataSelector> = Vec::new();
    let mut i: usize = 0;
    while i < parts.len()
        invariant
            i <= parts.len(),
            parts@ == editable_parts(),
            r@ == asked_parts(data_selector, parts@.take(i as int)),
        decreases parts.len() - i,
    {
        let part = parts[i];
        let asked = match data_selector {
            None => true,
            Some(s) => s.includes(part),
        };
        if asked {
            r.push(part);
        }
        proof {
            assert(parts@.take(i + 1).drop_last() =~= parts@.take(i as int));
        }
        i = i + 1;
    }
    assert(parts@.take(parts.len() as int) =~= parts@);
    r
}

} // verus!
