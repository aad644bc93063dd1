//! The addressing grammar of the execution substrate, and the deriver that
//! composes a child instance's address from a prefix and its parent's
//! address.

use vstd::prelude::*;
use vstd::string::StringExecFns;

verus! {

/// Errors surfaced synchronously by a provisioning request.
#[derive(Clone, Copy, Debug, PartialEq, Eq, Structural)]
pub enum FactoryError {
    /// The caller is not the factory's owner.
    Unauthorized,
    /// The prefix, or the composed child address, violates the substrate's
    /// identifier grammar or its length limit.
    InvalidIdentifier,
}

/// Separator characters of the identifier grammar. Two separators may never
/// be adjacent, and an identifier may neither start nor end with one.
pub open spec fn is_separator(c: char) -> bool {
    c == '-' || c == '_' || c == '.'
}

/// Characters admitted by the identifier grammar: lowercase ASCII letters,
/// ASCII digits, and the separators.
pub open spec fn is_id_char(c: char) -> bool {
    ('a' <= c && c <= 'z') || ('0' <= c && c <= '9') || is_separator(c)
}

/// Every character is admitted, and no two separators are adjacent.
pub open spec fn valid_id_chars(s: Seq<char>) -> bool {
    &&& forall|i: int| 0 <= i < s.len() ==> is_id_char(#[trigger] s[i])
    &&& forall|i: int| 0 < i < s.len() ==> !(is_separator(s[i - 1]) && is_separator(#[trigger] s[i]))
}

/// A non-empty identifier segment: admitted characters only, no adjacent
/// separators, and no separator at either end. A valid prefix for a child
/// address is exactly such a segment.
pub open spec fn valid_segment(s: Seq<char>) -> bool {
    &&& s.len() >= 1
    &&& valid_id_chars(s)
    &&& !is_separator(s[0])
    &&& !is_separator(s[s.len() - 1])
}

/// The shortest account identifier the substrate accepts.
pub const MIN_ACCOUNT_ID_LEN: usize = 2;

/// The longest account identifier the substrate accepts.
pub const MAX_ACCOUNT_ID_LEN: usize = 64;

/// A full account identifier: a valid segment within the substrate's length
/// limits.
pub open spec fn valid_account_id(s: Seq<char>) -> bool {
    &&& MIN_ACCOUNT_ID_LEN <= s.len() <= MAX_ACCOUNT_ID_LEN
    &&& valid_segment(s)
}

/// Checks a string against the segment grammar.
pub fn is_valid_segment(s: &str) -> (b: bool)
    ensures
        b == valid_segment(s@),
{
    let n = s.unicode_len();
    if n == 0 {
        return false;
    }
    let mut i: usize = 0;
    // Starts true so that a leading separator is rejected as if it followed
    // another separator, exactly as the substrate's own validator does.
    let mut prev_sep = true;
    while i < n
        invariant
            0 <= i <= n,
            n == s@.len(),
            forall|j: int| 0 <= j < i ==> is_id_char(#[trigger] s@[j]),
            forall|j: int| 0 < j < i ==> !(is_separator(s@[j - 1]) && is_separator(#[trigger] s@[j])),
            prev_sep == if i == 0 { true } else { is_separator(s@[i - 1]) },
            i > 0 ==> !is_separator(s@[0]),
        decreases n - i,
    {
        let c = s.get_char(i);
        let lower = 'a' <= c && c <= 'z';
        let digit = '0' <= c && c <= '9';
        let sep = c == '-' || c == '_' || c == '.';
        if !(lower || digit || sep) {
            return false;
        }
        if sep && prev_sep {
            return false;
        }
        prev_sep = sep;
        i += 1;
    }
    !prev_sep
}

/// Checks a string against the full account-identifier grammar.
pub fn is_valid_account_id(s: &str) -> (b: bool)
    ensures
        b == valid_account_id(s@),
{
    let n = s.unicode_len();
    if n < MIN_ACCOUNT_ID_LEN || n > MAX_ACCOUNT_ID_LEN {
        return false;
    }
    is_valid_segment(s)
}

/// The derived address of a child instance: the prefix, a fixed separator,
/// and the parent's own address.
pub open spec fn derived_id(prefix: Seq<char>, parent: Seq<char>) -> Seq<char> {
    prefix + seq!['.'] + parent
}

/// Composing a valid segment with a valid parent address yields a valid
/// account identifier, provided the result stays within the length limit.
pub proof fn lemma_derived_id_valid(prefix: Seq<char>, parent: Seq<char>)
    requires
        valid_segment(prefix),
        valid_segment(parent),
        prefix.len() + 1 + parent.len() <= MAX_ACCOUNT_ID_LEN,
    ensures
        valid_account_id(derived_id(prefix, parent)),
{
    let d = derived_id(prefix, parent);
    let p = prefix.len() as int;
    assert forall|i: int| 0 <= i < d.len() implies is_id_char(#[trigger] d[i]) by {
        if i < p {
            assert(d[i] == prefix[i]);
        } else if i == p {
            assert(d[i] == '.');
        } else {
            assert(d[i] == parent[i - p - 1]);
        }
    }
    assert forall|i: int| 0 < i < d.len() implies !(is_separator(d[i - 1]) && is_separator(
        #[trigger] d[i],
    )) by {
        if i < p {
            assert(d[i - 1] == prefix[i - 1]);
            assert(d[i] == prefix[i]);
        } else if i == p {
            assert(d[i - 1] == prefix[p - 1]);
        } else if i == p + 1 {
            assert(d[i] == parent[0]);
        } else {
            assert(d[i - 1] == parent[i - p - 2]);
            assert(d[i] == parent[i - p - 1]);
        }
    }
    assert(d[0] == prefix[0]);
    assert(d[d.len() - 1] == parent[parent.len() - 1]);
}

/// Derives the address of a child instance subordinate to `parent`. Fails
/// with `InvalidIdentifier` exactly when the prefix is not a valid segment
/// or the composed address would exceed the substrate's length limit.
pub fn derive_sub_account_id(prefix: &str, parent: &str) -> (r: Result<String, FactoryError>)
    requires
        valid_account_id(parent@),
    ensures
        match r {
            Ok(id) => {
                &&& valid_segment(prefix@)
                &&& prefix@.len() + 1 + parent@.len() <= MAX_ACCOUNT_ID_LEN
                &&& id@ == derived_id(prefix@, parent@)
                &&& valid_account_id(id@)
            },
            Err(e) => {
                &&& e == FactoryError::InvalidIdentifier
                &&& (!valid_segment(prefix@) || prefix@.len() + 1 + parent@.len()
                    > MAX_ACCOUNT_ID_LEN)
            },
        },
{
    if !is_valid_segment(prefix) {
        return Err(FactoryError::InvalidIdentifier);
    }
    let prefix_len = prefix.unicode_len();
    let parent_len = parent.unicode_len();
    if prefix_len > MAX_ACCOUNT_ID_LEN || prefix_len + 1 + parent_len > MAX_ACCOUNT_ID_LEN {
        return Err(FactoryError::InvalidIdentifier);
    }
    let mut id = prefix.to_owned();
    id.append(".");
    id.append(parent);
    proof {
        reveal_strlit(".");
        assert("."@ =~= seq!['.']);
        assert(id@ =~= derived_id(prefix@, parent@));
        lemma_derived_id_valid(prefix@, parent@);
    }
    Ok(id)
}

/// Deriving a child address is deterministic: two derivations from the same
/// prefix and the same parent address yield the same identifier, so any
/// observer can predict the address of a not-yet-created child.
pub proof fn lemma_derive_deterministic(
    prefix: Seq<char>,
    parent: Seq<char>,
    first: Seq<char>,
    second: Seq<char>,
)
    requires
        first == derived_id(prefix, parent),
        second == derived_id(prefix, parent),
    ensures
        first == second,
{
}

} // verus!
