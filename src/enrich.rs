//! When to ask the embedding provider, with what text, and whether its reply
//! counts as a vector.

use vstd::prelude::*;
use vstd::string::*;
use crate::labels::EntityLabel;

verus! {

/// Descriptions shorter than this many characters are not embedded.
pub const DEFAULT_MIN_TEXT_LEN: usize = 10;

/// What to do about one entity's embedding.
#[derive(Clone, Debug, PartialEq, Eq)]
pub enum EmbeddingPlan {
    /// No request: the node is written with an empty embedding.
    Skip,
    /// One request with this context text.
    Request(String),
}

/// The text sent to the provider for one entity.
pub open spec fn context_spec(name: Seq<char>, label: EntityLabel, rich_text: Seq<char>) -> Seq<char> {
    "About "@ + name + " ("@ + label.name_spec() + "): "@ + rich_text
}

/// The Unicode White_Space characters, which `char::is_whitespace` accepts
/// and `str::trim` removes.
pub open spec fn is_white_space(c: char) -> bool {
    let n = c as u32;
    (0x09 <= n <= 0x0d) || n == 0x20 || n == 0x85 || n == 0xa0 || n == 0x1680 || (0x2000 <= n
        <= 0x200a) || n == 0x2028 || n == 0x2029 || n == 0x202f || n == 0x205f || n == 0x3000
}

/// Empty, or nothing but white space: blank once trimmed.
pub open spec fn is_blank(s: Seq<char>) -> bool {
    forall|i: int| 0 <= i < s.len() ==> is_white_space(#[trigger] s[i])
}

/// A credential that is blank once trimmed counts as missing.
pub open spec fn skips_embedding(credential: Seq<char>, rich_text: Seq<char>, min_len: nat) -> bool {
    is_blank(credential) || rich_text.len() < min_len
}

fn white_space_char(c: char) -> (r: bool)
    ensures
        r == is_white_space(c),
{
    let n = c as u32;
    (0x09 <= n && n <= 0x0d) || n == 0x20 || n == 0x85 || n == 0xa0 || n == 0x1680 || (0x2000 <= n
        && n <= 0x200a) || n == 0x2028 || n == 0x2029 || n == 0x202f || n == 0x205f || n == 0x3000
}

pub fn blank(s: &str) -> (r: bool)
    ensures
        r == is_blank(s@),
{
    let n = s.unicode_len();
    let mut i: usize = 0;
    while i < n
        invariant
            n == s@.len(),
            i <= n,
            forall|j: int| 0 <= j < i ==> is_white_space(#[trigger] s@[j]),
        decreases n - i,
    {
        if !white_space_char(s.get_char(i)) {
            return false;
        }
        i = i + 1;
    }
    true
}

pub fn embedding_context(name: &str, label: EntityLabel, rich_text: &str) -> (r: String)
    ensures
        r@ == context_spec(name@, label, rich_text@),
{
    String::from_str("About ").concat(name).concat(" (").concat(label.as_str()).concat("): ").concat(
        rich_text,
    )
}

/// A short description or a missing (blank) credential means no request at all;
/// otherwise one request with the entity's context text.
pub fn plan_embedding(
    credential: &str,
    name: &str,
    label: EntityLabel,
    rich_text: &str,
    min_len: usize,
) -> (r: EmbeddingPlan)
    ensures
        skips_embedding(credential@, rich_text@, min_len as nat) <==> r == EmbeddingPlan::Skip,
        r matches EmbeddingPlan::Request(c) ==> c@ == context_spec(name@, label, rich_text@),
{
    if blank(credential) || rich_text.unicode_len() < min_len {
        EmbeddingPlan::Skip
    } else {
        EmbeddingPlan::Request(embedding_context(name, label, rich_text))
    }
}

pub open spec fn reply_usable(status: Option<u16>, vector_len: Option<usize>) -> bool {
    &&& status matches Some(code) && 200 <= code <= 299
    &&& vector_len matches Some(n) && n > 0
}

/// Whether a reply gives the node a vector: a success status and a non-empty
/// vector field. `status` is `None` when no reply came; `vector_len` is `None`
/// when the reply has no vector field.
pub fn reply_has_vector(status: Option<u16>, vector_len: Option<usize>) -> (r: bool)
    ensures
        r == reply_usable(status, vector_len),
{
    match (status, vector_len) {
        (Some(code), Some(n)) => 200 <= code && code <= 299 && n > 0,
        _ => false,
    }
}

} // verus!
