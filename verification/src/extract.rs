//! Dependency declarations of a build file.
//!
//! A declaration reads `implementation.project("name")` or
//! `implementation.project('name')`: the text `implementation.project(`, a
//! quote, an optional colon, the name, the same quote again and `)`. The name
//! is a run of word characters and hyphens, at least one. One character after
//! the closing bracket, if there is one on the line, belongs to the declaration
//! and is dropped with it.
//!
//! A regular expression finds the declarations. What it finds is then held
//! against `is_declaration`, so that whatever the search hands back, what is
//! reported is a name and stands in the text, behind `implementation.project(`
//! and between two quotes that agree.

use vstd::prelude::*;
use vstd::string::*;
use crate::text::{occurs_in, push_char, texts};

verus! {

/// The search pattern. It accepts either quote at either end and captures, in
/// this order, the opening quote, the name and the closing quote; whether the
/// two quotes agree is decided by `capture_identifier`.
pub const DECLARATION_PATTERN: &'static str =
    "implementation\\.project\\((['\"]):?([\\w-]+)(['\"])\\).?";

/// What a search with the regular expression `pattern` finds in `text`: `None`
/// where the pattern is not a regular expression that the engine accepts, else
/// the successive non-overlapping matches from left to right, each as the list
/// of its capture groups (group 0 is the whole match), where a group that took
/// no part in the match is `None`.
pub uninterp spec fn regex_captures(pattern: Seq<char>, text: Seq<char>) -> Option<
    Seq<Seq<Option<Seq<char>>>>,
>;

/// The characters of the groups of one match.
pub open spec fn group_texts(groups: Seq<Option<String>>) -> Seq<Option<Seq<char>>> {
    groups.map_values(
        |g: Option<String>|
            match g {
                Some(s) => Some(s@),
                None => None,
            },
    )
}

/// The characters of the groups of each match.
pub open spec fn capture_texts(captures: Seq<Vec<Option<String>>>) -> Seq<
    Seq<Option<Seq<char>>>,
> {
    captures.map_values(|c: Vec<Option<String>>| group_texts(c@))
}

/// Every group that took part in a match stands somewhere in the text.
pub open spec fn groups_occur_in(captures: Seq<Seq<Option<Seq<char>>>>, text: Seq<char>) -> bool {
    forall|k: int, j: int|
        0 <= k < captures.len() && 0 <= j < captures[k].len() && (#[trigger] captures[k][j])
            is Some ==> occurs_in(captures[k][j].unwrap(), text)
}

/// `Regex::new` followed by `Regex::captures_iter` of the regex crate, each
/// match read group by group with `Captures::get` and `Match::as_str`. The
/// result is the one that `regex_captures` names: it depends on the pattern and
/// the text alone. Of what a given pattern matches one thing is claimed: what
/// `Match::as_str` hands back is a part of the text that was searched.
#[verifier::external_body]
fn all_captures(pattern: &str, text: &str) -> (found: Option<Vec<Vec<Option<String>>>>)
    ensures
        match found {
            Some(captures) => regex_captures(pattern@, text@) == Some(capture_texts(captures@)),
            None => regex_captures(pattern@, text@) is None,
        },
        found matches Some(captures) ==> groups_occur_in(capture_texts(captures@), text@),
{
    let re = match regex::Regex::new(pattern) { Ok(re) => re, Err(_) => return None };
    let mut found = Vec::new();
    for caps in re.captures_iter(text) {
        let mut groups = Vec::new();
        for i in 0..caps.len() {
            groups.push(caps.get(i).map(|m| m.as_str().to_string()));
        }
        found.push(groups);
    }
    Some(found)
}

/// The text is one single or double quote.
pub open spec fn is_quote(quote: Seq<char>) -> bool {
    quote.len() == 1 && (quote[0] == '\'' || quote[0] == '"')
}

/// A character that a name may hold: a hyphen, or a word character. Among
/// the characters below 128 the word characters are the letters, the digits
/// and the underscore; which of the others are word characters is left to the
/// search.
pub open spec fn is_name_char(c: char) -> bool {
    ||| c == '-'
    ||| c == '_'
    ||| ('0' <= c && c <= '9')
    ||| ('a' <= c && c <= 'z')
    ||| ('A' <= c && c <= 'Z')
    ||| c as u32 >= 128
}

/// The text is a name: at least one character, each of which a name may hold.
pub open spec fn is_name(name: Seq<char>) -> bool {
    name.len() > 0 && forall|i: int| 0 <= i < name.len() ==> is_name_char(#[trigger] name[i])
}

/// A declaration of `name` up to its closing bracket: `quote` stands on both
/// sides of the name, and `colon` says whether a colon leads the name.
pub open spec fn declaration_text(quote: Seq<char>, colon: bool, name: Seq<char>) -> Seq<char> {
    "implementation.project("@ + quote + (if colon {
        ":"@
    } else {
        Seq::empty()
    }) + name + quote + ")"@
}

/// `whole` is a declaration of the name `name` between two `quote`s, with or
/// without a leading colon, and with or without one more character behind its
/// closing bracket.
pub open spec fn is_declaration(whole: Seq<char>, quote: Seq<char>, name: Seq<char>) -> bool {
    &&& is_quote(quote)
    &&& is_name(name)
    &&& whole.len() > 0
    &&& {
        let plain = declaration_text(quote, false, name);
        let with_colon = declaration_text(quote, true, name);
        ||| whole == plain
        ||| whole == with_colon
        ||| whole == plain.push(whole.last())
        ||| whole == with_colon.push(whole.last())
    }
}

/// The name that one match declares: its second group, where the match has the
/// three groups of the pattern, the closing quote is the opening one, and the
/// whole match is a declaration of that name between those quotes.
pub open spec fn capture_identifier(groups: Seq<Option<Seq<char>>>) -> Option<Seq<char>> {
    if groups.len() == 4 && groups[0] is Some && groups[1] is Some && groups[2] is Some
        && groups[1] == groups[3] && is_declaration(
        groups[0].unwrap(),
        groups[1].unwrap(),
        groups[2].unwrap(),
    ) {
        groups[2]
    } else {
        None
    }
}

/// The name stands in the text inside a declaration whose quotes agree.
pub open spec fn declared_in(text: Seq<char>, name: Seq<char>) -> bool {
    exists|whole: Seq<char>, quote: Seq<char>| #[trigger]
        is_declaration(whole, quote, name) && occurs_in(whole, text)
}

/// The names that the matches declare, in the order of the matches.
pub open spec fn identifiers(captures: Seq<Seq<Option<Seq<char>>>>) -> Seq<Seq<char>>
    decreases captures.len(),
{
    if captures.len() == 0 {
        Seq::empty()
    } else {
        match capture_identifier(captures.last()) {
            Some(name) => identifiers(captures.drop_last()).push(name),
            None => identifiers(captures.drop_last()),
        }
    }
}

/// The names declared in a build file's text, or `None` where the search
/// pattern is refused.
pub open spec fn dependencies_of(contents: Seq<char>) -> Option<Seq<Seq<char>>> {
    match regex_captures(DECLARATION_PATTERN@, contents) {
        Some(captures) => Some(identifiers(captures)),
        None => None,
    }
}

/// Why no dependencies could be collected.
#[derive(Debug, Clone, Copy, PartialEq, Eq)]
pub enum ExtractError {
    /// The engine refused the search pattern.
    InvalidPattern,
}

/// Tells whether a name may hold the character.
pub fn is_name_character(c: char) -> (yes: bool)
    ensures
        yes == is_name_char(c),
{
    c == '-' || c == '_' || ('0' <= c && c <= '9') || ('a' <= c && c <= 'z') || ('A' <= c && c
        <= 'Z') || c as u32 >= 128
}

/// Tells whether the text is a name.
pub fn is_name_text(name: &str) -> (yes: bool)
    ensures
        yes == is_name(name@),
{
    let n: usize = name.unicode_len();
    if n == 0 {
        return false;
    }
    let mut i: usize = 0;
    while i < n
        invariant
            n == name@.len(),
            i <= n,
            forall|k: int| 0 <= k < i ==> is_name_char(#[trigger] name@[k]),
        decreases n - i,
    {
        if !is_name_character(name.get_char(i)) {
            return false;
        }
        i += 1;
    }
    true
}

/// Writes a declaration of `name` up to its closing bracket.
pub fn declaration_with(quote: &str, colon: bool, name: &str) -> (text: String)
    ensures
        text@ == declaration_text(quote@, colon, name@),
{
    let mut text = String::from_str("implementation.project(");
    text.append(quote);
    if colon {
        text.append(":");
    }
    let ghost head = text@;
    text.append(name);
    text.append(quote);
    text.append(")");
    proof {
        assert(head =~= "implementation.project("@ + quote@ + (if colon {
            ":"@
        } else {
            Seq::empty()
        }));
    }
    text
}

/// Tells whether `whole` is a declaration of `name` between two `quote`s.
pub fn is_declaration_of(whole: &String, quote: &str, name: &str) -> (yes: bool)
    ensures
        yes == is_declaration(whole@, quote@, name@),
{
    if quote.unicode_len() != 1 {
        return false;
    }
    let q = quote.get_char(0);
    if q != '\'' && q != '"' {
        return false;
    }
    if !is_name_text(name) {
        return false;
    }
    let n: usize = whole.as_str().unicode_len();
    if n == 0 {
        return false;
    }
    let last = whole.as_str().get_char(n - 1);
    let plain = declaration_with(quote, false, name);
    let with_colon = declaration_with(quote, true, name);
    let mut plain_and_one = plain.clone();
    push_char(&mut plain_and_one, last);
    let mut with_colon_and_one = with_colon.clone();
    push_char(&mut with_colon_and_one, last);
    *whole == plain || *whole == with_colon || *whole == plain_and_one || *whole
        == with_colon_and_one
}

/// Reads the declared name off one match.
pub fn identifier_of_capture(groups: &Vec<Option<String>>) -> (name: Option<String>)
    ensures
        match name {
            Some(s) => capture_identifier(group_texts(groups@)) == Some(s@),
            None => capture_identifier(group_texts(groups@)) is None,
        },
{
    if groups.len() != 4 {
        return None;
    }
    match (&groups[0], &groups[1], &groups[2], &groups[3]) {
        (Some(whole), Some(open), Some(name), Some(close)) => {
            if *open == *close && is_declaration_of(whole, open.as_str(), name.as_str()) {
                Some(name.clone())
            } else {
                None
            }
        },
        _ => None,
    }
}

/// Keeps, in order, the names of the matches whose quotes agree.
pub fn declared_identifiers(captures: &Vec<Vec<Option<String>>>) -> (names: Vec<String>)
    ensures
        texts(names@) == identifiers(capture_texts(captures@)),
{
    let ghost all = capture_texts(captures@);
    let n: usize = captures.len();
    let mut names: Vec<String> = Vec::new();
    let mut i: usize = 0;
    while i < n
        invariant
            n == captures.len(),
            i <= n,
            all == capture_texts(captures@),
            texts(names@) == identifiers(all.take(i as int)),
        decreases n - i,
    {
        let ghost before = names@;
        proof {
            assert(all.take(i + 1).drop_last() =~= all.take(i as int));
            assert(all.take(i + 1).last() == group_texts(captures[i as int]@));
        }
        match identifier_of_capture(&captures[i]) {
            Some(name) => {
                names.push(name);
                proof {
                    assert(texts(names@) =~= texts(before).push(name@));
                }
            },
            None => {},
        }
        i += 1;
    }
    proof {
        assert(all.take(n as int) =~= all);
    }
    names
}

/// Extracts the dependency names that a build file declares, in the order of
/// their appearance.
pub fn collect_module_dependencies(gradle_file_contents: String) -> (deps: Result<
    Vec<String>,
    ExtractError,
>)
    ensures
        match deps {
            Ok(names) => dependencies_of(gradle_file_contents@) == Some(texts(names@)),
            Err(e) => e == ExtractError::InvalidPattern && dependencies_of(gradle_file_contents@)
                is None,
        },
        deps matches Ok(names) ==> forall|i: int|
            0 <= i < names@.len() ==> is_name((#[trigger] names@[i])@) && declared_in(
                gradle_file_contents@,
                names@[i]@,
            ),
{
    match all_captures(DECLARATION_PATTERN, gradle_file_contents.as_str()) {
        Some(captures) => {
            let names = declared_identifiers(&captures);
            proof {
                let found = capture_texts(captures@);
                assert forall|i: int| 0 <= i < names@.len() implies is_name(
                    (#[trigger] names@[i])@,
                ) && declared_in(gradle_file_contents@, names@[i]@) by {
                    assert(texts(names@)[i] == names@[i]@);
                    lemma_each_name_has_its_match(found, i);
                    let k = choose|k: int|
                        0 <= k < found.len() && capture_identifier(#[trigger] found[k]) == Some(
                            identifiers(found)[i],
                        );
                    let groups = found[k];
                    assert(groups[0] is Some);
                    assert(occurs_in(groups[0].unwrap(), gradle_file_contents@));
                    assert(is_declaration(
                        groups[0].unwrap(),
                        groups[1].unwrap(),
                        names@[i]@,
                    ));
                }
            }
            Ok(names)
        },
        None => Err(ExtractError::InvalidPattern),
    }
}

/// Each name comes from one of the matches.
pub proof fn lemma_each_name_has_its_match(captures: Seq<Seq<Option<Seq<char>>>>, i: int)
    requires
        0 <= i < identifiers(captures).len(),
    ensures
        exists|k: int|
            0 <= k < captures.len() && capture_identifier(#[trigger] captures[k]) == Some(
                identifiers(captures)[i],
            ),
    decreases captures.len(),
{
    if captures.len() > 0 {
        let rest = captures.drop_last();
        if i < identifiers(rest).len() {
            lemma_each_name_has_its_match(rest, i);
            let k = choose|k: int|
                0 <= k < rest.len() && capture_identifier(#[trigger] rest[k]) == Some(
                    identifiers(rest)[i],
                );
            assert(captures[k] == rest[k]);
        } else {
            assert(capture_identifier(captures[captures.len() - 1]) == Some(
                identifiers(captures)[i],
            ));
        }
    }
}

/// The names of a list of matches are those of its first part followed by
/// those of the rest: names come in the order of the matches.
pub proof fn lemma_identifiers_follow_match_order(
    first: Seq<Seq<Option<Seq<char>>>>,
    rest: Seq<Seq<Option<Seq<char>>>>,
)
    ensures
        identifiers(first + rest) == identifiers(first) + identifiers(rest),
    decreases rest.len(),
{
    if rest.len() == 0 {
        assert(first + rest =~= first);
        assert(identifiers(first) + identifiers(rest) =~= identifiers(first));
    } else {
        assert((first + rest).drop_last() =~= first + rest.drop_last());
        assert((first + rest).last() == rest.last());
        lemma_identifiers_follow_match_order(first, rest.drop_last());
        assert(identifiers(first + rest) =~= identifiers(first) + identifiers(rest));
    }
}

/// Where each of the matches is a declaration whose quotes agree, each gives
/// its name: as many names as matches, in the same order.
pub proof fn lemma_every_declaration_gives_its_name(captures: Seq<Seq<Option<Seq<char>>>>)
    requires
        forall|i: int|
            0 <= i < captures.len() ==> capture_identifier(#[trigger] captures[i]) is Some,
    ensures
        identifiers(captures).len() == captures.len(),
        forall|i: int|
            0 <= i < captures.len() ==> Some(#[trigger] identifiers(captures)[i])
                == capture_identifier(captures[i]),
    decreases captures.len(),
{
    if captures.len() > 0 {
        assert(capture_identifier(captures[captures.len() - 1]) is Some);
        assert forall|i: int| 0 <= i < captures.drop_last().len() implies capture_identifier(
            #[trigger] captures.drop_last()[i],
        ) is Some by {
            assert(captures.drop_last()[i] == captures[i]);
        }
        lemma_every_declaration_gives_its_name(captures.drop_last());
        assert forall|i: int| 0 <= i < captures.len() implies Some(
            #[trigger] identifiers(captures)[i],
        ) == capture_identifier(captures[i]) by {
            if i < captures.len() - 1 {
                assert(captures.drop_last()[i] == captures[i]);
                assert(identifiers(captures)[i] == identifiers(captures.drop_last())[i]);
            }
        }
    }
}

/// A match whose closing quote is not its opening quote declares nothing: with
/// it or without it, wherever it stands among the matches, the names are the
/// same.
pub proof fn lemma_mismatched_quotes_declare_nothing(
    before: Seq<Seq<Option<Seq<char>>>>,
    groups: Seq<Option<Seq<char>>>,
    after: Seq<Seq<Option<Seq<char>>>>,
)
    requires
        groups.len() == 4,
        groups[1] != groups[3],
    ensures
        capture_identifier(groups) is None,
        identifiers(before.push(groups) + after) == identifiers(before + after),
{
    assert(before.push(groups).drop_last() =~= before);
    lemma_identifiers_follow_match_order(before.push(groups), after);
    lemma_identifiers_follow_match_order(before, after);
}

/// Whatever the matches are, each name that is read off them is a name: not
/// empty, and made of hyphens and word characters alone.
pub proof fn lemma_every_identifier_is_a_name(captures: Seq<Seq<Option<Seq<char>>>>)
    ensures
        forall|i: int|
            0 <= i < identifiers(captures).len() ==> is_name(#[trigger] identifiers(captures)[i]),
{
    assert forall|i: int| 0 <= i < identifiers(captures).len() implies is_name(
        #[trigger] identifiers(captures)[i],
    ) by {
        lemma_each_name_has_its_match(captures, i);
        let k = choose|k: int|
            0 <= k < captures.len() && capture_identifier(#[trigger] captures[k]) == Some(
                identifiers(captures)[i],
            );
        assert(is_declaration(
            captures[k][0].unwrap(),
            captures[k][1].unwrap(),
            identifiers(captures)[i],
        ));
    }
}

/// From the place `start` on, the match holds the name, then the character
/// that is its opening quote, then the closing bracket. The opening quote has
/// the 23 characters of `implementation.project(` before it.
pub open spec fn name_is_enclosed(whole: Seq<char>, start: int, name: Seq<char>) -> bool {
    &&& 24 <= start
    &&& start + name.len() + 2 <= whole.len()
    &&& whole.subrange(start, start + name.len()) == name
    &&& whole[start + name.len()] == whole[23]
    &&& whole[start + name.len() + 1] == ')'
}

/// A declaration begins with `implementation.project(`, and its name stands
/// between two quotes that are the same character: after the opening quote
/// come the colon, if there is one, the name, the same quote again and the
/// closing bracket.
pub proof fn lemma_declaration_quotes_agree(whole: Seq<char>, quote: Seq<char>, name: Seq<char>)
    requires
        is_declaration(whole, quote, name),
    ensures
        "implementation.project("@.is_prefix_of(whole),
        whole[23] == quote[0],
        whole[23] == '\'' || whole[23] == '"',
        name_is_enclosed(whole, 24, name) || (whole[24] == ':' && name_is_enclosed(
            whole,
            25,
            name,
        )),
{
    reveal_strlit("implementation.project(");
    reveal_strlit(":");
    reveal_strlit(")");
    let plain = declaration_text(quote, false, name);
    let with_colon = declaration_text(quote, true, name);
    let n = name.len() as int;
    if whole == plain || whole == plain.push(whole.last()) {
        assert(plain.subrange(24, 24 + n) =~= name);
        assert(whole.subrange(24, 24 + n) =~= name);
        assert(whole.subrange(0, 23) =~= "implementation.project("@);
        assert(name_is_enclosed(whole, 24, name));
    } else {
        assert(with_colon.subrange(25, 25 + n) =~= name);
        assert(whole.subrange(25, 25 + n) =~= name);
        assert(whole.subrange(0, 23) =~= "implementation.project("@);
        assert(name_is_enclosed(whole, 25, name));
    }
}

/// A name is not empty and holds no quote, colon, bracket, dot or blank.
pub proof fn lemma_name_holds_no_punctuation(name: Seq<char>)
    requires
        is_name(name),
    ensures
        name.len() >= 1,
        forall|i: int|
            0 <= i < name.len() ==> {
                let c = #[trigger] name[i];
                c != '\'' && c != '"' && c != ':' && c != '(' && c != ')' && c != '.' && c != ' '
                    && c != '\t' && c != '\n' && c != '\r'
            },
{
    assert forall|i: int| 0 <= i < name.len() implies {
        let c = #[trigger] name[i];
        c != '\'' && c != '"' && c != ':' && c != '(' && c != ')' && c != '.' && c != ' ' && c
            != '\t' && c != '\n' && c != '\r'
    } by {
        assert(is_name_char(name[i]));
    }
}

} // verus!
