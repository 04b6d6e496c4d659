//! Paste identifiers: how they are drawn and which strings are accepted as one.

use adjective_adjective_animal::Generator;
use vstd::prelude::*;
use vstd::string::*;

verus! {

/// An ASCII letter, upper or lower case.
pub open spec fn is_letter(c: char) -> bool {
    ('a' <= c && c <= 'z') || ('A' <= c && c <= 'Z')
}

/// The strings accepted as identifiers: more than three characters, letters only.
pub open spec fn is_valid_id(s: Seq<char>) -> bool {
    s.len() > 3 && forall|i: int| 0 <= i < s.len() ==> is_letter(#[trigger] s[i])
}

/// Returns `true` if `id` is a valid paste ID and `false` otherwise.
pub fn valid_id(id: &str) -> (ok: bool)
    ensures
        ok == is_valid_id(id@),
{
    if !id.is_ascii() {
        return false;
    }
    let n: usize = id.unicode_len();
    if n <= 3 {
        return false;
    }
    let mut i: usize = 0;
    while i < n
        invariant
            n == id@.len(),
            i <= n,
            is_ascii(id),
            forall|j: int| 0 <= j < i ==> is_letter(#[trigger] id@[j]),
        decreases n - i,
    {
        let b: u8 = id.get_ascii(i);
        let lower = 97 <= b && b <= 122;
        let upper = 65 <= b && b <= 90;
        if !(lower || upper) {
            assert(!is_letter(id@[i as int]));
            return false;
        }
        assert(is_letter(id@[i as int]));
        i = i + 1;
    }
    true
}

/// Draws one name from `adjective_adjective_animal::Generator::default()` with
/// `Iterator::next`. The generator joins two adjectives and one animal picked
/// at random from its built-in word lists; each word there is two or more
/// ASCII letters, and `next` never returns `None`. Only that much is claimed:
/// which words come out is left open.
#[verifier::external_body]
fn next_name() -> (name: Option<String>)
    ensures
        name is Some,
        is_valid_id(name.unwrap()@),
{
    let mut generator = Generator::default();
    generator.next()
}

/// A _probably_ unique paste ID.
#[derive(Debug)]
pub struct PasteID(String);

impl View for PasteID {
    type V = Seq<char>;

    closed spec fn view(&self) -> Seq<char> {
        self.0@
    }
}

impl PasteID {
    #[verifier::type_invariant]
    spec fn well_formed(self) -> bool {
        is_valid_id(self.0@)
    }

    /// Generate a _probably_ unique ID. Whether it is free is for the store to find out.
    pub fn new() -> (id: PasteID)
        ensures
            is_valid_id(id@),
    {
        PasteID(next_name().unwrap())
    }

    /// Accepts `param` as an identifier exactly when it is valid; otherwise hands it back.
    pub fn from_param<'a>(param: &'a str) -> (r: Result<PasteID, &'a str>)
        ensures
            is_valid_id(param@) ==> (r matches Ok(id) && id@ == param@),
            !is_valid_id(param@) ==> (r matches Err(e) && e@ == param@),
    {
        if valid_id(param) {
            Ok(PasteID(String::from_str(param)))
        } else {
            Err(param)
        }
    }

    /// The identifier's text.
    pub fn as_str(&self) -> (s: &str)
        ensures
            s@ == self@,
            is_valid_id(s@),
    {
        proof {
            use_type_invariant(self);
        }
        self.0.as_str()
    }

    /// The identifier's text, owned.
    pub fn to_string(&self) -> (s: String)
        ensures
            s@ == self@,
    {
        self.0.clone()
    }
}

} // verus!
