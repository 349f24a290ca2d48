//! Paths and their parts.
use crate::lists::{kept, texts};
use crate::text::{
    characters, join, join_with, owned, sanitize_text, sanitized, separated, text_of,
};
use std::path::{Component, Path};
use vstd::prelude::*;

verus! {

/// A step of a path: the prefix that some systems put before it, its root, a dot, two
/// dots, or a name.
#[derive(Debug, PartialEq, Eq)]
pub enum PathStep {
    Prefix(String),
    Root,
    Here,
    Parent,
    Name(String),
}

#[verifier::ext_equal]
pub enum StepView {
    Prefix(Seq<char>),
    Root,
    Here,
    Parent,
    Name(Seq<char>),
}

impl View for PathStep {
    type V = StepView;

    open spec fn view(&self) -> StepView {
        match *self {
            PathStep::Prefix(text) => StepView::Prefix(text@),
            PathStep::Root => StepView::Root,
            PathStep::Here => StepView::Here,
            PathStep::Parent => StepView::Parent,
            PathStep::Name(text) => StepView::Name(text@),
        }
    }
}

pub open spec fn step_views(steps: Seq<PathStep>) -> Seq<StepView> {
    steps.map_values(|step: PathStep| step@)
}

/// A path as text, and the steps that it has where it was read.
#[derive(Debug, PartialEq, Eq)]
pub struct FilePath {
    pub text: String,
    pub steps: Vec<PathStep>,
}

impl FilePath {
    pub open spec fn step_list(self) -> Seq<StepView> {
        step_views(self.steps@)
    }
}

// ----------------------------------------------------------------- the steps

/// The text between the slashes of a path, from left to right.
pub open spec fn pieces(path: Seq<char>) -> Seq<Seq<char>>
    decreases path.len(),
{
    if path.len() == 0 {
        seq![Seq::empty()]
    } else {
        let head = pieces(path.drop_last());
        if path.last() == '/' {
            head.push(Seq::empty())
        } else {
            head.drop_last().push(head.last().push(path.last()))
        }
    }
}

/// Whether a path is read in the same way on every system: it has no backslash and
/// no colon, and begins with one slash at most.
pub open spec fn is_portable(path: Seq<char>) -> bool {
    &&& forall|i: int|
        0 <= i < path.len() ==> #[trigger] path[i] != '\\' && path[i] != ':'
    &&& !(path.len() > 1 && path[0] == '/' && path[1] == '/')
}

/// The steps between slashes. Nothing and a single dot lead nowhere; a path has a
/// root if it begins with a slash, and keeps a dot that it begins with.
pub open spec fn steps_of(path: Seq<char>) -> Seq<StepView> {
    let start = if path.len() > 0 && path[0] == '/' {
        seq![StepView::Root]
    } else if pieces(path)[0] == "."@ {
        seq![StepView::Here]
    } else {
        Seq::empty()
    };
    start + kept(pieces(path), |piece: Seq<char>| piece.len() > 0 && piece != "."@).map_values(
        |piece: Seq<char>|
            if piece == ".."@ {
                StepView::Parent
            } else {
                StepView::Name(piece)
            },
    )
}

/// `Path::components`: the steps of a path from left to right. What separates them,
/// and whether there is a prefix, rests on the system; of a path that all systems
/// read alike, the steps are those between its slashes.
#[verifier::external_body]
fn path_steps(path: &str) -> (steps: Vec<PathStep>)
    ensures
        is_portable(path@) ==> step_views(steps@) == steps_of(path@),
{
    Path::new(path).components().map(
        |step| match step {
            Component::Prefix(prefix) => PathStep::Prefix(
                prefix.as_os_str().to_string_lossy().into_owned(),
            ),
            Component::RootDir => PathStep::Root,
            Component::CurDir => PathStep::Here,
            Component::ParentDir => PathStep::Parent,
            Component::Normal(name) => PathStep::Name(name.to_string_lossy().into_owned()),
        },
    ).collect()
}

impl FilePath {
    /// Reads a path as the system does.
    pub fn new(text: &str) -> (path: FilePath)
        ensures
            path.text@ == text@,
            is_portable(text@) ==> path.step_list() == steps_of(text@),
    {
        FilePath { text: owned(text), steps: path_steps(text) }
    }
}

/// The names in a path, with its prefix.
pub open spec fn names(steps: Seq<StepView>) -> Seq<Seq<char>>
    decreases steps.len(),
{
    if steps.len() == 0 {
        Seq::empty()
    } else {
        let head = names(steps.drop_last());
        match steps.last() {
            StepView::Name(name) => head.push(name),
            StepView::Prefix(prefix) => head.push(prefix),
            _ => head,
        }
    }
}

/// The name that a path ends in, if it ends in one.
pub open spec fn last_name(steps: Seq<StepView>) -> Option<Seq<char>> {
    if steps.len() == 0 {
        None
    } else {
        match steps.last() {
            StepView::Name(name) => Some(name),
            _ => None,
        }
    }
}

fn push_piece(list: &mut Vec<String>, piece: String)
    ensures
        texts(final(list)@) == texts(old(list)@).push(piece@),
{
    let ghost was = texts(list@);
    list.push(piece);
    assert(texts(list@) =~= was.push(piece@));
}

/// The names in a path, with its prefix.
pub fn path_names(path: &FilePath) -> (list: Vec<String>)
    ensures
        texts(list@) == names(path.step_list()),
{
    let ghost views = path.step_list();
    let mut list: Vec<String> = Vec::new();
    let mut k: usize = 0;
    assert(views.take(0) =~= Seq::<StepView>::empty());
    assert(texts(list@) =~= Seq::<Seq<char>>::empty());
    while k < path.steps.len()
        invariant
            k <= path.steps@.len(),
            views == path.step_list(),
            texts(list@) == names(views.take(k as int)),
        decreases path.steps@.len() - k,
    {
        assert(views.take(k + 1).drop_last() =~= views.take(k as int));
        assert(views.take(k + 1).last() == path.steps@[k as int]@);
        match &path.steps[k] {
            PathStep::Name(name) => push_piece(&mut list, owned(name.as_str())),
            PathStep::Prefix(prefix) => push_piece(&mut list, owned(prefix.as_str())),
            _ => {},
        }
        k = k + 1;
    }
    assert(views.take(k as int) =~= views);
    list
}

/// The name that a path ends in.
pub fn file_name(path: &FilePath) -> (name: Option<String>)
    ensures
        crate::app::text_view(name) == last_name(path.step_list()),
{
    let count = path.steps.len();
    assert(path.step_list().len() == count);
    if count == 0 {
        return None;
    }
    assert(path.step_list().last() == path.steps@[count - 1]@);
    match &path.steps[count - 1] {
        PathStep::Name(name) => Some(owned(name.as_str())),
        _ => None,
    }
}

// --------------------------------------------------------------- the extension

/// Where the last dot of a name is.
pub open spec fn last_dot(name: Seq<char>) -> Option<int>
    decreases name.len(),
{
    if name.len() == 0 {
        None
    } else if name.last() == '.' {
        Some(name.len() - 1)
    } else {
        last_dot(name.drop_last())
    }
}

/// What stands behind the last dot of a name. A dot in front of a name begins no
/// extension.
pub open spec fn extension_of(name: Seq<char>) -> Option<Seq<char>> {
    match last_dot(name) {
        Some(k) => if k == 0 {
            None
        } else {
            Some(name.skip(k + 1))
        },
        None => None,
    }
}

/// The extension of the name that a path ends in.
pub open spec fn path_extension(steps: Seq<StepView>) -> Option<Seq<char>> {
    match last_name(steps) {
        Some(name) => extension_of(name),
        None => None,
    }
}

/// The extension of the name that a path ends in.
pub fn extension(path: &FilePath) -> (extension: Option<String>)
    ensures
        crate::app::text_view(extension) == path_extension(path.step_list()),
{
    let name = match file_name(path) {
        Some(name) => name,
        None => {
            return None;
        },
    };
    let chars = characters(name.as_str());
    let count = chars.len();
    let mut k: usize = count;
    assert(name@.take(k as int) =~= name@);
    while k > 0
        invariant
            k <= count,
            count == chars@.len(),
            chars@ == name@,
            last_name(path.step_list()) == Some(name@),
            last_dot(name@) == last_dot(name@.take(k as int)),
        decreases k,
    {
        assert(name@.take(k as int).drop_last() =~= name@.take(k - 1));
        if chars[k - 1] == '.' {
            if k == 1 {
                return None;
            }
            let rest = text_of(&chars, k, count);
            assert(rest@ =~= name@.skip(k as int));
            return Some(rest);
        }
        k = k - 1;
    }
    None
}

pub open spec fn small_letter(c: char) -> char {
    if 'A' <= c <= 'Z' {
        ((c as u32 + 32) as u8) as char
    } else {
        c
    }
}

/// Whether two texts are the same but for capital letters from A to Z.
pub open spec fn same_but_capitals(a: Seq<char>, b: Seq<char>) -> bool {
    a.len() == b.len() && forall|k: int|
        0 <= k < a.len() ==> small_letter(#[trigger] a[k]) == small_letter(b[k])
}

fn to_small_letter(c: char) -> (small: char)
    ensures
        small == small_letter(c),
{
    if 'A' <= c && c <= 'Z' {
        ((c as u32 + 32) as u8) as char
    } else {
        c
    }
}

/// Whether two texts are the same but for capital letters from A to Z.
pub fn eq_ignore_ascii_case(a: &str, b: &str) -> (same: bool)
    ensures
        same == same_but_capitals(a@, b@),
{
    let left = characters(a);
    let right = characters(b);
    if left.len() != right.len() {
        return false;
    }
    let mut k: usize = 0;
    while k < left.len()
        invariant
            k <= left@.len(),
            left@ == a@,
            right@ == b@,
            left@.len() == right@.len(),
            forall|j: int| 0 <= j < k ==> small_letter(#[trigger] a@[j]) == small_letter(b@[j]),
        decreases left@.len() - k,
    {
        if to_small_letter(left[k]) != to_small_letter(right[k]) {
            assert(small_letter(a@[k as int]) != small_letter(b@[k as int]));
            return false;
        }
        k = k + 1;
    }
    true
}

// ------------------------------------------------------------------ the label

/// A path in short: the last of its names, behind dots if there are more.
pub open spec fn last_names(path: FilePath, depth: int) -> Seq<char> {
    let all = names(path.step_list());
    if all.len() == 0 {
        path.text@
    } else if all.len() <= depth {
        separated(all, "/"@)
    } else {
        ".../"@ + separated(all.skip(all.len() - depth), "/"@)
    }
}

/// A path in short, fit for a terminal.
pub open spec fn short_path(path: FilePath, depth: int) -> Seq<char> {
    sanitized(last_names(path, depth))
}

/// A path in short, fit for a terminal.
pub fn compact_path_label(path: &FilePath, depth: usize) -> (label: String)
    ensures
        label@ == short_path(*path, depth as int),
{
    sanitize_text(shorten_path(path, depth).as_str())
}

fn shorten_path(path: &FilePath, depth: usize) -> (label: String)
    ensures
        label@ == last_names(*path, depth as int),
{
    let all = path_names(path);
    let count = all.len();
    assert(texts(all@).len() == count);
    if count == 0 {
        return owned(path.text.as_str());
    }
    if count <= depth {
        return join_with(&all, "/");
    }
    let ghost views = texts(all@);
    let mut tail: Vec<String> = Vec::new();
    let mut k: usize = count - depth;
    assert(texts(tail@) =~= views.subrange(count - depth, count - depth));
    while k < count
        invariant
            count - depth <= k <= count,
            depth < count,
            count == all@.len(),
            views == texts(all@),
            texts(tail@) == views.subrange(count - depth, k as int),
        decreases count - k,
    {
        push_piece(&mut tail, owned(all[k].as_str()));
        assert(texts(tail@) =~= views.subrange(count - depth, k + 1));
        k = k + 1;
    }
    assert(views.subrange(count - depth, k as int) =~= views.skip(count - depth));
    join(".../", join_with(&tail, "/").as_str())
}

} // verus!
