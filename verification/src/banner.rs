//! The mascot that decorates status and error messages.

use vstd::prelude::*;

verus! {

/// What `ferris_says::say` writes for `message` when lines may be `width`
/// columns wide: the message in a speech bubble, the mascot below it.
pub uninterp spec fn ferris_speech(message: Seq<char>, width: nat) -> Seq<char>;

/// `ferris_says::say`, writing into a buffer in memory.
///
/// Trusted: what is written depends on the message and the width alone. It
/// is UTF-8, made of the bubble's ASCII frame and pieces of the message.
#[verifier::external_body]
fn say_into_text(message: &str, width: usize) -> (text: String)
    ensures
        text@ == ferris_speech(message@, width as nat),
{
    let mut written: Vec<u8> = Vec::new();
    let _ = ferris_says::say(message, width, &mut written);
    String::from_utf8_lossy(&written).into_owned()
}

/// The message as the mascot says it, in a bubble as wide as the message
/// has characters.
pub fn format_ferris(message: &str) -> (text: String)
    ensures
        text@ == ferris_speech(message@, message@.len()),
{
    let width = message.unicode_len();
    say_into_text(message, width)
}

} // verus!
