use vstd::prelude::*;
use crate::password::{random_secret, secret_text, SECRET_LENGTH};

verus! {

/// The set of the texts that a list holds.
pub open spec fn texts_of(s: Seq<String>) -> Set<Seq<char>> {
    Set::new(|t: Seq<char>| exists|i: int| 0 <= i < s.len() && (#[trigger] s[i])@ == t)
}

/// Whether the list holds the text.
pub fn holds_text(list: &Vec<String>, text: &str) -> (found: bool)
    ensures
        found == texts_of(list@).contains(text@),
{
    let key = String::from_str(text);
    let mut i: usize = 0;
    while i < list.len()
        invariant
            i <= list@.len(),
            key@ == text@,
            forall|j: int| 0 <= j < i ==> (#[trigger] list@[j])@ != text@,
        decreases list@.len() - i,
    {
        if list[i] == key {
            return true;
        }
        i += 1;
    }
    false
}

/// The reserved codes, which no link may use. Fixed once built.
pub struct DisallowedCodes {
    codes: Vec<String>,
}

impl View for DisallowedCodes {
    type V = Set<Seq<char>>;

    closed spec fn view(&self) -> Set<Seq<char>> {
        texts_of(self.codes@)
    }
}

impl DisallowedCodes {
    /// The set of the given codes.
    pub fn new(codes: Vec<String>) -> (set: DisallowedCodes)
        ensures
            set@ == texts_of(codes@),
    {
        DisallowedCodes { codes }
    }

    /// Whether the code is reserved.
    pub fn contains(&self, code: &str) -> (reserved: bool)
        ensures
            reserved == self@.contains(code@),
    {
        holds_text(&self.codes, code)
    }
}

/// The bearer tokens that are valid now. Nothing removes a token: the set
/// lasts as long as the process.
pub struct TokenStore {
    tokens: Vec<String>,
}

impl View for TokenStore {
    type V = Set<Seq<char>>;

    closed spec fn view(&self) -> Set<Seq<char>> {
        texts_of(self.tokens@)
    }
}

impl TokenStore {
    /// A store without tokens.
    pub fn new() -> (store: TokenStore)
        ensures
            store@ == Set::<Seq<char>>::empty(),
    {
        let store = TokenStore { tokens: Vec::new() };
        assert(store@ =~= Set::<Seq<char>>::empty());
        store
    }

    /// Whether the token is valid: a plain test of membership.
    pub fn validate(&self, token: &str) -> (authorized: bool)
        ensures
            authorized == self@.contains(token@),
    {
        holds_text(&self.tokens, token)
    }

    /// Generates a fresh random token and makes it valid, with no expiry.
    pub fn issue(&mut self) -> (token: String)
        ensures
            secret_text(token@, SECRET_LENGTH as nat),
            final(self)@ == old(self)@.insert(token@),
    {
        let token = random_secret(SECRET_LENGTH);
        self.enroll(token.clone());
        token
    }

    /// Makes the given token valid.
    pub fn enroll(&mut self, token: String)
        ensures
            final(self)@ == old(self)@.insert(token@),
    {
        let ghost before = self.tokens@;
        let ghost t = token@;
        self.tokens.push(token);
        proof {
            let after = self.tokens@;
            assert(after[before.len() as int]@ == t);
            assert forall|k: Seq<char>| texts_of(after).contains(k) <==> (k == t || texts_of(
                before,
            ).contains(k)) by {
                if texts_of(after).contains(k) && k != t {
                    let j = choose|j: int| 0 <= j < after.len() && (#[trigger] after[j])@ == k;
                    assert(before[j]@ == k);
                }
                if texts_of(before).contains(k) {
                    let j = choose|j: int| 0 <= j < before.len() && (#[trigger] before[j])@ == k;
                    assert(after[j]@ == k);
                }
            }
            assert(final(self)@ =~= old(self)@.insert(t));
        }
    }
}

} // verus!
