use vstd::prelude::*;
use vstd::string::*;

verus! {

/// What a statement is expected to produce.
#[derive(PartialEq, Eq, Structural, Clone, Copy, Debug)]
pub enum StatementKind {
    /// A row-producing statement.
    Query,
    /// A row-affecting statement, which reports a count.
    Command,
}

/// What `str::trim` returns: the text without leading and trailing white space.
pub uninterp spec fn trimmed_of(s: Seq<char>) -> Seq<char>;

/// What `str::to_lowercase` returns for a text.
pub uninterp spec fn lowercase_of(s: Seq<char>) -> Seq<char>;

/// Relies on `str::trim`: the result depends on the text alone.
#[verifier::external_body]
fn trim_text(s: &str) -> (r: &str)
    ensures
        r@ == trimmed_of(s@),
{
    s.trim()
}

/// Relies on `str::to_lowercase`: the result depends on the text alone.
#[verifier::external_body]
fn lowercase_text(s: &str) -> (r: String)
    ensures
        r@ == lowercase_of(s@),
{
    s.to_lowercase()
}

/// The keyword that marks a row-producing statement.
pub open spec fn select_keyword() -> Seq<char> {
    seq!['s', 'e', 'l', 'e', 'c', 't']
}

/// The kind of a statement whose trimmed, lower-cased text is `t`.
pub open spec fn kind_of_normalized(t: Seq<char>) -> StatementKind {
    if select_keyword().is_prefix_of(t) {
        StatementKind::Query
    } else {
        StatementKind::Command
    }
}

/// The kind of a statement, from its text as submitted.
pub open spec fn kind_of(query: Seq<char>) -> StatementKind {
    kind_of_normalized(lowercase_of(trimmed_of(query)))
}

/// Classifies a statement whose text is already trimmed and lower-cased:
/// it produces rows exactly when it starts with `select`.
pub fn classify_normalized(t: &str) -> (r: StatementKind)
    ensures
        r == kind_of_normalized(t@),
{
    let keyword = "select";
    proof { reveal_strlit("select"); }
    let n = t.unicode_len();
    if n < 6 {
        return StatementKind::Command;
    }
    let mut i: usize = 0;
    while i < 6
        invariant
            i <= 6,
            n == t@.len(),
            n >= 6,
            keyword@ == select_keyword(),
            forall|k: int| 0 <= k < i ==> t@[k] == select_keyword()[k],
        decreases 6 - i,
    {
        if t.get_char(i) != keyword.get_char(i) {
            assert(!select_keyword().is_prefix_of(t@));
            return StatementKind::Command;
        }
        i = i + 1;
    }
    assert(select_keyword().is_prefix_of(t@)) by {
        assert(t@.subrange(0, 6) =~= select_keyword());
    }
    StatementKind::Query
}

/// Classifies a statement by its leading keyword, ignoring case and
/// surrounding white space.
pub fn classify(query: &str) -> (r: StatementKind)
    ensures
        r == kind_of(query@),
{
    let trimmed = trim_text(query);
    let lowered = lowercase_text(trimmed);
    classify_normalized(lowered.as_str())
}

} // verus!
