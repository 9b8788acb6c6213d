//! Identifiers: fixed-length strings over the ASCII letters and digits.

use rand::Rng;
use vstd::prelude::*;
use vstd::string::*;
use crate::error::ValidationError;

verus! {

/// The number of characters in every identifier.
pub const ID_LENGTH: usize = 20;

/// Whether `c` belongs to the identifier alphabet: a-z, A-Z and 0-9.
pub open spec fn is_alphanumeric(c: char) -> bool {
    ||| 'a' <= c <= 'z'
    ||| 'A' <= c <= 'Z'
    ||| '0' <= c <= '9'
}

/// Whether `text` has the shape of an identifier: exactly [`ID_LENGTH`]
/// characters, each of the alphabet.
pub open spec fn well_formed(text: Seq<char>) -> bool {
    &&& text.len() == ID_LENGTH
    &&& forall|i: int| 0 <= i < text.len() ==> is_alphanumeric(#[trigger] text[i])
}

/// The name of one stored object.
#[derive(Debug, PartialEq, Eq)]
pub struct Identifier {
    text: String,
}

impl View for Identifier {
    type V = Seq<char>;

    closed spec fn view(&self) -> Seq<char> {
        self.text@
    }
}

impl Clone for Identifier {
    fn clone(&self) -> (copy: Self)
        ensures
            copy@ == self@,
    {
        proof {
            use_type_invariant(self);
        }
        Identifier { text: self.text.clone() }
    }
}

impl Identifier {
    /// Every identifier has the shape of one, wherever it came from.
    #[verifier::type_invariant]
    pub open spec fn shaped(self) -> bool {
        well_formed(self@)
    }

    /// The characters of the identifier.
    pub fn as_str(&self) -> (text: &str)
        ensures
            text@ == self@,
            well_formed(self@),
    {
        proof {
            use_type_invariant(self);
        }
        self.text.as_str()
    }
}

/// Decides whether `c` belongs to the identifier alphabet.
pub fn in_alphabet(c: char) -> (yes: bool)
    ensures
        yes == is_alphanumeric(c),
{
    (c >= 'a' && c <= 'z') || (c >= 'A' && c <= 'Z') || (c >= '0' && c <= '9')
}

/// Accepts `candidate` as an identifier exactly if it has the shape of one.
pub fn validate(candidate: &str) -> (checked: Result<Identifier, ValidationError>)
    ensures
        match checked {
            Ok(id) => well_formed(candidate@) && id@ == candidate@,
            Err(error) => !well_formed(candidate@) && error
                == ValidationError::MalformedIdentifier,
        },
{
    if candidate.unicode_len() != ID_LENGTH {
        return Err(ValidationError::MalformedIdentifier);
    }
    let mut i: usize = 0;
    while i < ID_LENGTH
        invariant
            i <= ID_LENGTH,
            candidate@.len() == ID_LENGTH,
            forall|j: int| 0 <= j < i ==> is_alphanumeric(#[trigger] candidate@[j]),
        decreases ID_LENGTH - i,
    {
        let c = candidate.get_char(i);
        if !in_alphabet(c) {
            return Err(ValidationError::MalformedIdentifier);
        }
        i += 1;
    }
    Ok(Identifier { text: candidate.to_owned() })
}

/// A string with the shape of an identifier is one plain name: it is not
/// empty and holds neither a path separator nor a dot, so it cannot lead out
/// of the place in which it is looked up.
pub proof fn lemma_identifier_is_plain_name(text: Seq<char>)
    requires
        well_formed(text),
    ensures
        text.len() > 0,
        !text.contains('/'),
        !text.contains('\\'),
        !text.contains('.'),
{
    assert forall|i: int| 0 <= i < text.len() implies text[i] != '/' && text[i] != '\\'
        && text[i] != '.' by {
        assert(is_alphanumeric(text[i]));
    }
}

/// Draws one character with `rand::Rng::sample` from the distribution
/// `rand::distributions::Alphanumeric`, on the generator of the calling thread
/// (`rand::thread_rng`). Trusted: the distribution picks its result from the
/// letters a-z and A-Z and the digits 0-9, whatever the generator hands it.
/// Which of them comes out is left open. The generator is seeded from the
/// operating system when a thread first draws, and `rand` panics where the
/// system has no seed to give.
#[verifier::external_body]
fn sample_alphanumeric() -> (c: char)
    ensures
        is_alphanumeric(c),
{
    rand::thread_rng().sample(rand::distributions::Alphanumeric)
}

/// Appends `c` to `text` with `String::push`. Trusted: the characters that
/// were there stay, in place, and `c` follows them.
#[verifier::external_body]
fn push_char(text: &mut String, c: char)
    ensures
        final(text)@ == old(text)@.push(c),
{
    text.push(c);
}

/// Produces a fresh identifier of random characters. No two calls are
/// promised to differ: the space of identifiers is large, and nothing more.
pub fn generate() -> (id: Identifier)
    ensures
        well_formed(id@),
{
    let mut text = String::new();
    let mut i: usize = 0;
    while i < ID_LENGTH
        invariant
            i <= ID_LENGTH,
            text@.len() == i,
            forall|j: int| 0 <= j < i ==> is_alphanumeric(#[trigger] text@[j]),
        decreases ID_LENGTH - i,
    {
        let c = sample_alphanumeric();
        push_char(&mut text, c);
        i += 1;
    }
    Identifier { text }
}

} // verus!
