//! What the user named: a repository on GitHub, or a location to hand on
//! as it is.
//!
//! A specifier is read as `owner/name` or as a bare `name`. An owner is a
//! non-empty run of ASCII letters, digits and hyphens; a name may hold
//! underscores and dots as well. Anything else (a URL, an SSH address, a
//! path) is no specifier, and is kept as the location it already is.

use vstd::prelude::*;
use crate::text::{alphanumeric, chars_of, is_alphanumeric};

verus! {

/// A character that may stand in an owner.
pub open spec fn is_owner_char(c: char) -> bool {
    is_alphanumeric(c) || c == '-'
}

/// A character that may stand in a repository name.
pub open spec fn is_name_char(c: char) -> bool {
    is_alphanumeric(c) || c == '-' || c == '_' || c == '.'
}

/// A character of one of the two classes: that of names if `name` holds,
/// else that of owners.
pub open spec fn in_class(c: char, name: bool) -> bool {
    if name {
        is_name_char(c)
    } else {
        is_owner_char(c)
    }
}

/// A non-empty run of owner characters.
pub open spec fn is_owner(s: Seq<char>) -> bool {
    s.len() > 0 && forall|i: int| 0 <= i < s.len() ==> is_owner_char(#[trigger] s[i])
}

/// A non-empty run of name characters.
pub open spec fn is_name(s: Seq<char>) -> bool {
    s.len() > 0 && forall|i: int| 0 <= i < s.len() ==> is_name_char(#[trigger] s[i])
}

/// `owner`, a slash, `name`.
pub open spec fn qualified(owner: Seq<char>, name: Seq<char>) -> Seq<char> {
    owner + seq!['/'] + name
}

/// `input` is an owner, a slash at index `at`, and a name.
pub open spec fn splits_at(input: Seq<char>, at: int) -> bool {
    &&& 0 <= at < input.len()
    &&& input[at] == '/'
    &&& is_owner(input.take(at))
    &&& is_name(input.skip(at + 1))
}

/// `input` is `owner/name` for some owner and some name.
pub open spec fn is_qualified(input: Seq<char>) -> bool {
    exists|at: int| splits_at(input, at)
}

/// Where the slash of a qualified specifier stands.
pub open spec fn slash_of(input: Seq<char>) -> int {
    choose|at: int| splits_at(input, at)
}

/// A source, over character sequences.
pub enum SourceView {
    GitHub { owner: Option<Seq<char>>, repo: Seq<char> },
    Web(Seq<char>),
}

/// The source that `input` names.
pub open spec fn resolved(input: Seq<char>) -> SourceView {
    if is_name(input) {
        SourceView::GitHub { owner: None, repo: input }
    } else if is_qualified(input) {
        SourceView::GitHub {
            owner: Some(input.take(slash_of(input))),
            repo: input.skip(slash_of(input) + 1),
        }
    } else {
        SourceView::Web(input)
    }
}

/// Where a repository is cloned from.
#[derive(Debug, PartialEq, Eq)]
pub enum Source {
    /// A repository on GitHub; without an owner it belongs to the
    /// authenticated user.
    GitHub { owner: Option<String>, repo: String },
    /// Any other location, passed on unchanged.
    Web(String),
}

impl View for Source {
    type V = SourceView;

    open spec fn view(&self) -> SourceView {
        match self {
            Source::GitHub { owner, repo } => SourceView::GitHub {
                owner: owner.deep_view(),
                repo: repo@,
            },
            Source::Web(url) => SourceView::Web(url@),
        }
    }
}

/// Neither an owner nor a name holds a slash, so a qualified specifier
/// splits in one place only: at its first slash.
pub proof fn lemma_split_is_unique(input: Seq<char>, at: int, other: int)
    requires
        splits_at(input, at),
        0 <= other < input.len(),
        input[other] == '/',
    ensures
        other == at,
{
    if other < at {
        assert(input.take(at)[other] == input[other]);
    } else if other > at {
        assert(input.skip(at + 1)[other - at - 1] == input[other]);
    }
}

/// Tells whether every character of `v` from `from` up to `to` is of the
/// class: that of names if `name` holds, else that of owners.
fn all_in_class(v: &Vec<char>, from: usize, to: usize, name: bool) -> (b: bool)
    requires
        from <= to <= v.len(),
    ensures
        b == forall|i: int| from <= i < to ==> in_class(#[trigger] v@[i], name),
{
    let mut i: usize = from;
    while i < to
        invariant
            from <= i <= to <= v.len(),
            forall|j: int| from <= j < i ==> in_class(#[trigger] v@[j], name),
        decreases to - i,
    {
        let c: char = v[i];
        let plain: bool = alphanumeric(c) || c == '-';
        if !(plain || (name && (c == '_' || c == '.'))) {
            return false;
        }
        i += 1;
    }
    true
}

/// The index of the first slash in `v`, or the length of `v` if it holds
/// none.
fn first_slash(v: &Vec<char>) -> (at: usize)
    ensures
        at <= v.len(),
        at < v.len() ==> v@[at as int] == '/',
        forall|i: int| 0 <= i < at ==> #[trigger] v@[i] != '/',
{
    let mut i: usize = 0;
    while i < v.len() && v[i] != '/'
        invariant
            i <= v.len(),
            forall|j: int| 0 <= j < i ==> #[trigger] v@[j] != '/',
        decreases v.len() - i,
    {
        i += 1;
    }
    i
}

impl Source {
    /// Reads a specifier. Every input has a source: what is no specifier
    /// is a location.
    pub fn resolve(input: &str) -> (source: Source)
        ensures
            source@ == resolved(input@),
    {
        let v = chars_of(input);
        let n: usize = v.len();
        let at: usize = first_slash(&v);
        if at == n {
            proof {
                if is_qualified(input@) {
                    let k = slash_of(input@);
                    assert(input@[k] == '/');
                }
            }
            if n > 0 && all_in_class(&v, 0, n, true) {
                Source::GitHub { owner: None, repo: input.to_owned() }
            } else {
                Source::Web(input.to_owned())
            }
        } else {
            assert(!is_name(input@)) by {
                assert(!is_name_char(input@[at as int]));
            }
            if at > 0 && at + 1 < n && all_in_class(&v, 0, at, false) && all_in_class(
                &v,
                at + 1,
                n,
                true,
            ) {
                proof {
                    assert forall|i: int| 0 <= i < input@.take(at as int).len() implies is_owner_char(
                        #[trigger] input@.take(at as int)[i],
                    ) by {
                        assert(input@.take(at as int)[i] == v@[i]);
                    }
                    assert forall|i: int| 0 <= i < input@.skip(at + 1).len() implies is_name_char(
                        #[trigger] input@.skip(at + 1)[i],
                    ) by {
                        assert(input@.skip(at + 1)[i] == v@[at + 1 + i]);
                    }
                    assert(splits_at(input@, at as int));
                    lemma_split_is_unique(input@, slash_of(input@), at as int);
                }
                let owner = input.substring_char(0, at).to_owned();
                let repo = input.substring_char(at + 1, n).to_owned();
                Source::GitHub { owner: Some(owner), repo }
            } else {
                proof {
                    if is_qualified(input@) {
                        let k = slash_of(input@);
                        lemma_split_is_unique(input@, k, at as int);
                        assert forall|i: int| 0 <= i < at implies is_owner_char(
                            #[trigger] v@[i],
                        ) by {
                            assert(input@.take(k)[i] == v@[i]);
                        }
                        assert forall|i: int| at + 1 <= i < n implies is_name_char(
                            #[trigger] v@[i],
                        ) by {
                            assert(input@.skip(k + 1)[i - k - 1] == v@[i]);
                        }
                    }
                }
                Source::Web(input.to_owned())
            }
        }
    }
}

impl std::str::FromStr for Source {
    type Err = std::convert::Infallible;

    /// Reads a specifier, as [`Source::resolve`] does; there is no error.
    fn from_str(s: &str) -> (r: Result<Self, Self::Err>)
        ensures
            r is Ok,
            r->Ok_0@ == resolved(s@),
    {
        Ok(Source::resolve(s))
    }
}

/// A bare name is a repository on GitHub whose owner is left open.
pub proof fn law_bare_name(name: Seq<char>)
    requires
        is_name(name),
    ensures
        resolved(name) == (SourceView::GitHub { owner: None, repo: name }),
{
}

/// An owner, a slash and a name are that owner's repository of that name:
/// both parts come out exactly as they went in.
pub proof fn law_owner_and_name(owner: Seq<char>, name: Seq<char>)
    requires
        is_owner(owner),
        is_name(name),
    ensures
        resolved(qualified(owner, name)) == (SourceView::GitHub { owner: Some(owner), repo: name }),
{
    let input = qualified(owner, name);
    let at = owner.len() as int;
    assert(input[at] == '/');
    assert(!is_name_char(input[at]));
    assert(input.take(at) =~= owner);
    assert(input.skip(at + 1) =~= name);
    assert(splits_at(input, at));
    lemma_split_is_unique(input, slash_of(input), at);
}

/// Whatever is neither a name nor an owner, a slash and a name is a
/// location, and is kept as it is.
pub proof fn law_anything_else(input: Seq<char>)
    requires
        !is_name(input),
        forall|owner: Seq<char>, name: Seq<char>|
            is_owner(owner) && is_name(name) ==> input != #[trigger] qualified(owner, name),
    ensures
        resolved(input) == SourceView::Web(input),
{
    if is_qualified(input) {
        let at = slash_of(input);
        assert(input =~= qualified(input.take(at), input.skip(at + 1)));
    }
}

/// A character that is neither a slash nor allowed in a name, such as a
/// colon or an at sign, makes the input a location.
pub proof fn law_foreign_character(input: Seq<char>, i: int)
    requires
        0 <= i < input.len(),
        input[i] != '/',
        !is_name_char(input[i]),
    ensures
        resolved(input) == SourceView::Web(input),
{
    if is_qualified(input) {
        let at = slash_of(input);
        if i < at {
            assert(input.take(at)[i] == input[i]);
        } else {
            assert(input.skip(at + 1)[i - at - 1] == input[i]);
        }
    }
}

/// A second slash makes the input a location.
pub proof fn law_second_slash(input: Seq<char>, i: int, j: int)
    requires
        0 <= i < j < input.len(),
        input[i] == '/',
        input[j] == '/',
    ensures
        resolved(input) == SourceView::Web(input),
{
    assert(!is_name_char(input[i]));
    if is_qualified(input) {
        let at = slash_of(input);
        lemma_split_is_unique(input, at, i);
        lemma_split_is_unique(input, at, j);
    }
}

} // verus!
