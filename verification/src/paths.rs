//! Unix paths, taken apart into their components.

use vstd::prelude::*;
use vstd::string::*;

use crate::text;
use crate::text::{chars_of, split_text};

verus! {

broadcast use vstd::seq_lib::group_seq_properties;

/// A path as its components. Empty components and `.` are none, but for a leading `.` of a
/// relative path.
#[verifier::ext_equal]
pub struct PathView {
    /// Whether the path starts at the root.
    pub absolute: bool,
    pub parts: Seq<Seq<char>>,
}

/// The components among the texts between separators.
pub open spec fn kept(pieces: Seq<Seq<char>>, absolute: bool) -> Seq<Seq<char>>
    decreases pieces.len(),
{
    if pieces.len() == 0 {
        Seq::empty()
    } else {
        let before = kept(pieces.drop_last(), absolute);
        let last = pieces.last();
        if last.len() == 0 || (last == "."@ && (absolute || pieces.len() > 1)) {
            before
        } else {
            before.push(last)
        }
    }
}

/// The components of a path.
pub open spec fn path_view(path: Seq<char>) -> PathView {
    let absolute = path.len() > 0 && path[0] == '/';
    PathView { absolute, parts: kept(text::split_on(path, '/'), absolute) }
}

/// Components with one separator between each two.
pub open spec fn joined(parts: Seq<Seq<char>>) -> Seq<char>
    decreases parts.len(),
{
    if parts.len() == 0 {
        Seq::empty()
    } else if parts.len() == 1 {
        parts[0]
    } else {
        joined(parts.drop_last()).push('/') + parts.last()
    }
}

/// The shortest text of a path with these components.
pub open spec fn path_text(path: PathView) -> Seq<char> {
    if path.absolute {
        seq!['/'] + joined(path.parts)
    } else {
        joined(path.parts)
    }
}

impl PathView {
    /// The directory that a path lies in; the root and the empty path lie in none.
    pub open spec fn parent(self) -> Option<PathView> {
        if self.parts.len() == 0 {
            None
        } else {
            Some(PathView { absolute: self.absolute, parts: self.parts.drop_last() })
        }
    }

    /// The last component, where it is a name.
    pub open spec fn file_name(self) -> Option<Seq<char>> {
        if self.parts.len() == 0 || self.parts.last() == ".."@ || self.parts.last() == "."@ {
            None
        } else {
            Some(self.parts.last())
        }
    }

    /// Whether the path starts at the root and never goes up.
    pub open spec fn is_clean_absolute(self) -> bool {
        &&& self.absolute
        &&& forall|i: int| 0 <= i < self.parts.len() ==> #[trigger] self.parts[i] != ".."@
    }
}

/// A path taken apart.
pub struct PathParts {
    pub absolute: bool,
    pub parts: Vec<String>,
}

impl View for PathParts {
    type V = PathView;

    open spec fn view(&self) -> PathView {
        PathView { absolute: self.absolute, parts: text::texts(self.parts@) }
    }
}

/// Take a path apart.
pub fn parse_path(path: &str) -> (result: PathParts)
    ensures
        result@ == path_view(path@),
{
    let characters = chars_of(path);
    let absolute = characters.len() > 0 && characters[0] == '/';
    let pieces = split_text(path, '/');
    let ghost all = text::split_on(path@, '/');
    let mut parts: Vec<String> = Vec::new();
    let mut index: usize = 0;
    assert(text::texts(parts@) =~= kept(all.take(0), absolute));
    while index < pieces.len()
        invariant
            index <= pieces@.len(),
            text::texts(pieces@) == all,
            text::texts(parts@) == kept(all.take(index as int), absolute),
        decreases pieces@.len() - index,
    {
        let piece: &String = &pieces[index];
        let dot = text::same_text(piece.as_str(), ".");
        let ghost upto = all.take(index as int + 1);
        assert(upto.drop_last() =~= all.take(index as int));
        assert(upto.last() == piece@);
        if !(piece.as_str().is_empty() || (dot && (absolute || index > 0))) {
            let ghost before = text::texts(parts@);
            parts.push(piece.clone());
            assert(text::texts(parts@) =~= before.push(piece@));
        }
        index += 1;
    }
    assert(all.take(all.len() as int) =~= all);
    PathParts { absolute, parts }
}

/// Whether a path starts at the root.
pub fn is_absolute(path: &str) -> (result: bool)
    ensures
        result == path_view(path@).absolute,
{
    let characters = chars_of(path);
    characters.len() > 0 && characters[0] == '/'
}

/// Whether a path starts at the root and never goes up.
pub fn is_clean_absolute_path(path: &str) -> (result: bool)
    ensures
        result == path_view(path@).is_clean_absolute(),
{
    let parsed = parse_path(path);
    if !parsed.absolute {
        return false;
    }
    let mut index: usize = 0;
    while index < parsed.parts.len()
        invariant
            index <= parsed.parts@.len(),
            parsed@ == path_view(path@),
            parsed.absolute,
            forall|i: int| 0 <= i < index ==> #[trigger] parsed@.parts[i] != ".."@,
        decreases parsed.parts@.len() - index,
    {
        if text::same_text(parsed.parts[index].as_str(), "..") {
            assert(parsed@.parts[index as int] == ".."@);
            return false;
        }
        index += 1;
    }
    true
}

fn join_parts(absolute: bool, parts: &Vec<String>, upto: usize) -> (result: String)
    requires
        upto <= parts@.len(),
    ensures
        result@ == path_text(
            PathView { absolute, parts: text::texts(parts@).take(upto as int) },
        ),
{
    let ghost all = text::texts(parts@);
    let mut body = String::new();
    let mut index: usize = 0;
    assert(joined(all.take(0)) =~= Seq::<char>::empty());
    while index < upto
        invariant
            index <= upto <= parts@.len(),
            all == text::texts(parts@),
            body@ == joined(all.take(index as int)),
        decreases upto - index,
    {
        let ghost next = all.take(index as int + 1);
        assert(next.drop_last() =~= all.take(index as int));
        if index > 0 {
            body.push('/');
        } else {
            assert(Seq::<char>::empty() + next[0] =~= next[0]);
        }
        body.append(parts[index].as_str());
        assert(body@ =~= joined(next));
        index += 1;
    }
    if absolute {
        let mut result = String::new();
        result.push('/');
        result.append(body.as_str());
        assert(result@ =~= seq!['/'] + body@);
        result
    } else {
        body
    }
}

/// The directory that a path lies in.
pub fn parent_path(path: &str) -> (result: Option<String>)
    ensures
        match result {
            Some(parent) => path_view(path@).parent() matches Some(view) && parent@ == path_text(
                view,
            ),
            None => path_view(path@).parent() is None,
        },
{
    let parsed = parse_path(path);
    if parsed.parts.len() == 0 {
        return None;
    }
    let last: usize = parsed.parts.len() - 1;
    assert(text::texts(parsed.parts@).take(last as int) =~= path_view(path@).parts.drop_last());
    Some(join_parts(parsed.absolute, &parsed.parts, last))
}

/// The name of a path, where it has one.
pub fn file_name(path: &str) -> (result: Option<String>)
    ensures
        match result {
            Some(name) => path_view(path@).file_name() == Some(name@),
            None => path_view(path@).file_name() is None,
        },
{
    let parsed = parse_path(path);
    if parsed.parts.len() == 0 {
        return None;
    }
    let last: &String = &parsed.parts[parsed.parts.len() - 1];
    assert(path_view(path@).parts.last() == last@);
    if text::same_text(last.as_str(), "..") || text::same_text(last.as_str(), ".") {
        None
    } else {
        Some(last.clone())
    }
}

/// What stands behind the last dot of a name, unless that dot comes first.
pub open spec fn extension(name: Seq<char>) -> Option<Seq<char>> {
    let at = text::rfind(name, '.');
    if at <= 0 {
        None
    } else {
        Some(name.subrange(at + 1, name.len() as int))
    }
}

/// What stands behind the last dot of a name, unless that dot comes first.
pub fn name_extension(name: &str) -> (result: Option<String>)
    ensures
        text::optional_text(result) == extension(name@),
{
    let characters = chars_of(name);
    let end: usize = characters.len();
    match text::rfind_char(&characters, '.') {
        Some(at) => {
            if at == 0 {
                None
            } else {
                Some(text::text_between(&characters, at + 1, end))
            }
        },
        None => None,
    }
}

/// The text of the path of a member of a directory.
pub open spec fn member_text(directory: Seq<char>, name: Seq<char>) -> Seq<char> {
    if directory.len() == 0 || directory.last() == '/' {
        directory + name
    } else {
        directory.push('/') + name
    }
}

/// The path of a member of a directory.
pub fn member_path(directory: &str, name: &str) -> (result: String)
    ensures
        result@ == member_text(directory@, name@),
{
    let characters = chars_of(directory);
    let mut result = directory.to_owned();
    if characters.len() > 0 && characters[characters.len() - 1] != '/' {
        result.push('/');
    }
    result.append(name);
    result
}

/// Whether two paths have the same components.
pub fn same_parts(first: &PathParts, second: &PathParts) -> (same: bool)
    ensures
        same == (first@ == second@),
{
    if first.absolute != second.absolute || first.parts.len() != second.parts.len() {
        assert(first@.parts.len() == first.parts@.len());
        assert(second@.parts.len() == second.parts@.len());
        return false;
    }
    let mut index: usize = 0;
    while index < first.parts.len()
        invariant
            index <= first.parts@.len(),
            first.parts@.len() == second.parts@.len(),
            forall|i: int| 0 <= i < index ==> first@.parts[i] == second@.parts[i],
        decreases first.parts@.len() - index,
    {
        if first.parts[index] != second.parts[index] {
            assert(first@.parts[index as int] != second@.parts[index as int]);
            return false;
        }
        index += 1;
    }
    assert(first@.parts =~= second@.parts);
    true
}

/// Whether `path` is the direct member `name` of a directory with these components.
pub open spec fn is_member(path: PathView, directory: PathView, name: Seq<char>) -> bool {
    path.parent() == Some(directory) && path.file_name() == Some(name)
}

/// Whether `path` is the direct member `name` of `directory`.
pub fn is_member_path(path: &str, directory: &str, name: &str) -> (result: bool)
    ensures
        result == is_member(path_view(path@), path_view(directory@), name@),
{
    let mut parsed = parse_path(path);
    let ghost whole = parsed@;
    let found = match file_name(path) {
        Some(last) => text::same_text(last.as_str(), name),
        None => false,
    };
    if !found {
        return false;
    }
    let parent_parts = parsed.parts.pop();
    assert(parsed@.parts =~= whole.parts.drop_last());
    assert(whole.parent() == Some(parsed@));
    let wanted = parse_path(directory);
    same_parts(&parsed, &wanted)
}

// ---------------------------------------------------------------------------------------------
// Members of a directory
// ---------------------------------------------------------------------------------------------

/// Whether a name can be one component of a path.
pub open spec fn is_plain_name(name: Seq<char>) -> bool {
    &&& name.len() > 0
    &&& name != "."@
    &&& name != ".."@
    &&& forall|i: int| 0 <= i < name.len() ==> #[trigger] name[i] != '/'
}

/// The member `name` of a directory is a path that lies directly in that directory under that
/// name.
pub proof fn member_lies_in_its_directory(directory: Seq<char>, name: Seq<char>)
    requires
        directory.len() > 0,
        is_plain_name(name),
    ensures
        is_member(path_view(member_text(directory, name)), path_view(directory), name),
        path_view(member_text(directory, name)).parts == path_view(directory).parts.push(name),
        path_view(member_text(directory, name)).absolute == path_view(directory).absolute,
{
    let absolute = directory[0] == '/';
    let whole = member_text(directory, name);
    let front = if directory.last() == '/' {
        directory
    } else {
        directory.push('/')
    };
    assert(whole =~= front + name);
    assert(whole[0] == directory[0]);
    text::split_of_appended(front, name, '/');
    let head = front.drop_last();
    text::split_ends_empty_after_separator(front, '/');
    text::split_is_never_empty(head, '/');
    let pieces = text::split_on(head, '/');
    assert(text::split_on(front, '/') == pieces.push(Seq::empty()));
    assert(text::split_on(front, '/').drop_last() =~= pieces);
    assert(Seq::<char>::empty() + name =~= name);
    let split = text::split_on(whole, '/');
    assert(split =~= pieces.push(name));
    assert(split.drop_last() =~= pieces);
    assert(kept(split, absolute) == kept(pieces, absolute).push(name));
    // The directory has the same components with or without the separator behind it.
    let with_separator = text::split_on(front, '/');
    assert(with_separator.drop_last() =~= pieces);
    assert(kept(with_separator, absolute) == kept(pieces, absolute));
    if directory.last() == '/' {
        assert(kept(text::split_on(directory, '/'), absolute) == kept(pieces, absolute));
    } else {
        assert(head =~= directory);
    }
    let parts = path_view(directory).parts;
    assert(path_view(whole).parts =~= parts.push(name));
    assert(parts.push(name).drop_last() =~= parts);
}

proof fn kept_parts_are_pieces(pieces: Seq<Seq<char>>)
    ensures
        forall|i: int|
            0 <= i < kept(pieces, true).len() ==> {
                &&& (#[trigger] kept(pieces, true)[i]).len() > 0
                &&& kept(pieces, true)[i] != "."@
                &&& pieces.contains(kept(pieces, true)[i])
            },
    decreases pieces.len(),
{
    if pieces.len() > 0 {
        kept_parts_are_pieces(pieces.drop_last());
        let before = kept(pieces.drop_last(), true);
        let after = kept(pieces, true);
        assert forall|i: int| 0 <= i < after.len() implies (#[trigger] after[i]).len() > 0
            && after[i] != "."@ && pieces.contains(after[i]) by {
            if i < before.len() {
                assert(after[i] == before[i]);
                let k = choose|k: int|
                    0 <= k < pieces.drop_last().len() && pieces.drop_last()[k] == before[i];
                assert(pieces[k] == after[i]);
            } else {
                assert(pieces[pieces.len() - 1] == after[i]);
            }
        }
    }
}

proof fn names_read_back(parts: Seq<Seq<char>>)
    requires
        forall|i: int| 0 <= i < parts.len() ==> is_plain_name(#[trigger] parts[i]),
    ensures
        path_view(seq!['/'] + joined(parts)) == (PathView { absolute: true, parts }),
        parts.len() > 0 ==> joined(parts).len() > 0 && joined(parts).last() != '/',
    decreases parts.len(),
{
    let root = seq!['/'];
    if parts.len() == 0 {
        assert(root + joined(parts) =~= root);
        assert(root.drop_last() =~= Seq::empty());
        let empty = Seq::<char>::empty();
        assert(text::split_on(empty, '/') =~= seq![empty]);
        assert(text::split_on(root, '/') =~= seq![empty, empty]);
        assert(seq![empty, empty].drop_last() =~= seq![empty]);
        assert(seq![empty].drop_last() =~= Seq::<Seq<char>>::empty());
        assert(kept(Seq::<Seq<char>>::empty(), true) =~= Seq::<Seq<char>>::empty());
        assert(kept(seq![empty], true) =~= Seq::<Seq<char>>::empty());
        assert(kept(seq![empty, empty], true) =~= Seq::<Seq<char>>::empty());
        assert(path_view(root).parts =~= parts);
    } else {
        let before = parts.drop_last();
        let name = parts.last();
        assert(is_plain_name(parts[parts.len() - 1]));
        assert forall|i: int| 0 <= i < before.len() implies is_plain_name(#[trigger] before[i]) by {
            assert(before[i] == parts[i]);
        }
        names_read_back(before);
        let directory = root + joined(before);
        member_lies_in_its_directory(directory, name);
        if before.len() == 0 {
            assert(directory =~= root);
            assert(joined(parts) == name);
            assert(member_text(directory, name) =~= root + joined(parts));
        } else {
            assert(directory.last() == joined(before).last());
            assert(member_text(directory, name) =~= root + joined(parts));
        }
        assert(before.push(name) =~= parts);
        assert(joined(parts).last() == name.last());
    }
}

/// A path that starts at the root and never goes up has the same components in its shortest text.
pub proof fn clean_path_reads_back(path: Seq<char>)
    requires
        path_view(path).is_clean_absolute(),
    ensures
        path_view(path_text(path_view(path))) == path_view(path),
{
    let parts = path_view(path).parts;
    let pieces = text::split_on(path, '/');
    text::pieces_hold_no_separator(path, '/');
    kept_parts_are_pieces(pieces);
    assert forall|i: int| 0 <= i < parts.len() implies is_plain_name(#[trigger] parts[i]) by {
        assert(parts[i] == kept(pieces, true)[i]);
        let k = choose|k: int| 0 <= k < pieces.len() && pieces[k] == parts[i];
        assert forall|j: int| 0 <= j < parts[i].len() implies #[trigger] parts[i][j] != '/' by {
            assert(text::split_on(path, '/')[k][j] != '/');
        }
    }
    names_read_back(parts);
}

/// The extension of a name is what stands behind its last dot: it holds none, and there is one
/// exactly where a dot stands behind the first character.
pub proof fn extension_stands_behind_the_last_dot(name: Seq<char>)
    ensures
        extension(name) is Some <==> exists|i: int| 0 < i < name.len() && #[trigger] name[i] == '.',
        extension(name) matches Some(ending) ==> {
            let at = name.len() - ending.len() - 1;
            &&& at > 0
            &&& name[at] == '.'
            &&& name.subrange(at + 1, name.len() as int) == ending
            &&& forall|i: int| 0 <= i < ending.len() ==> #[trigger] ending[i] != '.'
        },
{
    text::rfind_bounds(name, '.');
    let at = text::rfind(name, '.');
    if extension(name) is Some {
        let ending = extension(name)->0;
        assert(name[at] == '.');
        assert forall|i: int| 0 <= i < ending.len() implies #[trigger] ending[i] != '.' by {
            assert(name[at + 1 + i] != '.');
        }
    }
    if exists|i: int| 0 < i < name.len() && #[trigger] name[i] == '.' {
        let dot = choose|i: int| 0 < i < name.len() && #[trigger] name[i] == '.';
        assert(at >= dot);
    }
}

/// A path lies in the directory of all its components but the last, which is its name unless it is
/// one of the two dots; the root and the empty path lie nowhere.
pub proof fn path_lies_in_its_parent(path: PathView)
    ensures
        path.parent() is None <==> path.parts.len() == 0,
        path.parent() matches Some(above) ==> path.parts == above.parts.push(path.parts.last())
            && above.absolute == path.absolute,
        path.file_name() matches Some(name) ==> path.parts.len() > 0 && path.parts.last() == name
            && name != ".."@ && name != "."@,
        path.parts.len() > 0 && path.parts.last() != ".."@ && path.parts.last() != "."@
            ==> path.file_name() == Some(path.parts.last()),
{
    if path.parts.len() > 0 {
        assert(path.parts =~= path.parts.drop_last().push(path.parts.last()));
    }
}

/// A path is clean exactly where it starts with a slash and none of its components goes up.
pub proof fn clean_path_never_goes_up(path: Seq<char>)
    ensures
        path_view(path).is_clean_absolute() <==> path.len() > 0 && path[0] == '/' && forall|i: int|
            0 <= i < path_view(path).parts.len() ==> #[trigger] path_view(path).parts[i] != ".."@,
        path_view(path).absolute <==> path.len() > 0 && path[0] == '/',
{
}

/// The components of a path are the texts between its slashes that are neither empty nor a single
/// dot, in their order, but for a dot at the start of a relative path.
pub proof fn components_are_the_names_between_slashes(pieces: Seq<Seq<char>>)
    ensures
        kept(pieces, true) == pieces.filter(|piece: Seq<char>| piece.len() > 0 && piece != "."@),
    decreases pieces.len(),
{
    let wanted = |piece: Seq<char>| piece.len() > 0 && piece != "."@;
    reveal(Seq::filter);
    if pieces.len() > 0 {
        let front = pieces.drop_last();
        components_are_the_names_between_slashes(front);
        assert(pieces =~= front.push(pieces.last()));
        assert(pieces.filter(wanted) == if wanted(pieces.last()) {
            front.filter(wanted).push(pieces.last())
        } else {
            front.filter(wanted)
        });
    }
}

} // verus!
