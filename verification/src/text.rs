//! Texts as characters, and identifier rewriting: PlantUML identifiers may
//! not hold a hyphen.

use vstd::prelude::*;
use vstd::string::*;

verus! {

/// The characters of each string of a list.
pub open spec fn texts(items: Seq<String>) -> Seq<Seq<char>> {
    items.map_values(|s: String| s@)
}

/// The part stands somewhere in the whole, character after character.
pub open spec fn occurs_in(part: Seq<char>, whole: Seq<char>) -> bool {
    exists|start: int|
        0 <= start && start + part.len() <= whole.len() && #[trigger] whole.subrange(
            start,
            start + part.len(),
        ) == part
}

/// The name with every hyphen replaced by an underscore.
pub open spec fn underscored(name: Seq<char>) -> Seq<char> {
    name.map_values(|c: char| if c == '-' { '_' } else { c })
}

/// `String::push` of std: the character is appended to the end of the string
/// and the characters before it stay as they were.
#[verifier::external_body]
pub(crate) fn push_char(text: &mut String, c: char)
    ensures
        final(text)@ == old(text)@.push(c),
{
    text.push(c)
}

/// Rewrites a module or dependency name into a diagram identifier.
pub fn replace_hyphens(name: &str) -> (out: String)
    ensures
        out@ == underscored(name@),
{
    let n: usize = name.unicode_len();
    let mut out = String::new();
    let mut i: usize = 0;
    while i < n
        invariant
            n == name@.len(),
            i <= n,
            out@ == underscored(name@.take(i as int)),
        decreases n - i,
    {
        let c = name.get_char(i);
        let d = if c == '-' { '_' } else { c };
        push_char(&mut out, d);
        proof {
            assert(name@.take(i + 1) =~= name@.take(i as int).push(c));
            assert(out@ =~= underscored(name@.take(i + 1)));
        }
        i += 1;
    }
    proof {
        assert(name@.take(n as int) =~= name@);
    }
    out
}

/// A rewritten name holds no hyphen, is as long as the name, and differs from
/// it only where the name holds a hyphen, where it holds an underscore.
pub proof fn lemma_underscored_replaces_only_hyphens(name: Seq<char>)
    ensures
        underscored(name).len() == name.len(),
        !underscored(name).contains('-'),
        forall|i: int|
            0 <= i < name.len() ==> underscored(name)[i] == (if name[i] == '-' {
                '_'
            } else {
                name[i]
            }),
{
}

/// A name without a hyphen is its own identifier, so rewriting twice is
/// rewriting once.
pub proof fn lemma_underscored_is_idempotent(name: Seq<char>)
    ensures
        underscored(underscored(name)) == underscored(name),
        !name.contains('-') ==> underscored(name) == name,
{
    assert(underscored(underscored(name)) =~= underscored(name));
    if !name.contains('-') {
        assert(underscored(name) =~= name);
    }
}

} // verus!
