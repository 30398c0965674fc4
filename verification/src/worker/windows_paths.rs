//! Windows paths, as far as a worker session depends on them.

use vstd::prelude::*;
use vstd::string::*;

use crate::text;
use crate::text::{char_is_ascii_letter, chars_of, has_prefix, same_text, split_text, text_between};

verus! {

broadcast use vstd::seq_lib::group_seq_properties;

/// Both separators of an ordinary path.
pub open spec fn is_separator(c: char) -> bool {
    c == '\\' || c == '/'
}

/// Whether a path is verbatim: nothing in it is normalized, and only backslashes separate.
pub open spec fn is_verbatim(path: Seq<char>) -> bool {
    text::starts_with(path, "\\\\?\\"@)
}

/// Whether a text starts with a drive letter and a colon.
pub open spec fn has_drive(path: Seq<char>) -> bool {
    path.len() >= 2 && text::is_ascii_letter(path[0]) && path[1] == ':'
}

/// The place of the first separator, or the length where there is none.
pub open spec fn next_separator(path: Seq<char>) -> int
    decreases path.len(),
{
    if path.len() == 0 || is_separator(path[0]) {
        0
    } else {
        1 + next_separator(path.drop_first())
    }
}

/// Whether a path is absolute: a drive with a separator behind it, a verbatim or device path, or a
/// share on a server.
pub open spec fn is_absolute_text(path: Seq<char>) -> bool {
    if path.len() >= 2 && is_separator(path[0]) && is_separator(path[1]) {
        let rest = path.subrange(2, path.len() as int);
        let server = next_separator(rest);
        if is_verbatim(path) {
            true
        } else if rest.len() >= 2 && rest[0] == '.' && is_separator(rest[1]) {
            true
        } else {
            server > 0 && server < rest.len() && next_separator(
                rest.subrange(server + 1, rest.len() as int),
            ) > 0
        }
    } else {
        has_drive(path) && path.len() >= 3 && is_separator(path[2])
    }
}

fn separator(c: char) -> (result: bool)
    ensures
        result == is_separator(c),
{
    c == '\\' || c == '/'
}

fn find_separator(characters: &Vec<char>, from: usize) -> (at: usize)
    requires
        from <= characters@.len(),
    ensures
        from <= at <= characters@.len(),
        at - from == next_separator(
            characters@.subrange(from as int, characters@.len() as int),
        ),
{
    let ghost all = characters@;
    let mut index: usize = from;
    while index < characters.len() && !separator(characters[index])
        invariant
            from <= index <= characters@.len(),
            all == characters@,
            next_separator(all.subrange(from as int, all.len() as int)) == index - from
                + next_separator(all.subrange(index as int, all.len() as int)),
        decreases characters@.len() - index,
    {
        let ghost rest = all.subrange(index as int, all.len() as int);
        assert(rest.drop_first() =~= all.subrange(index as int + 1, all.len() as int));
        index += 1;
    }
    index
}

/// Whether a path is absolute.
pub fn is_absolute(path: &str) -> (result: bool)
    ensures
        result == is_absolute_text(path@),
{
    let characters = chars_of(path);
    let count: usize = characters.len();
    if count >= 2 && separator(characters[0]) && separator(characters[1]) {
        let ghost rest = path@.subrange(2, path@.len() as int);
        if has_prefix(&characters, "\\\\?\\").is_some() {
            return true;
        }
        if count >= 4 && characters[2] == '.' && separator(characters[3]) {
            assert(rest[0] == '.' && is_separator(rest[1]));
            return true;
        }
        assert(!(rest.len() >= 2 && rest[0] == '.' && is_separator(rest[1])));
        let server_end: usize = find_separator(&characters, 2);
        if server_end == 2 || server_end == count {
            return false;
        }
        let share: usize = server_end + 1;
        let share_end: usize = find_separator(&characters, share);
        let ghost server = next_separator(rest);
        assert(rest.subrange(server + 1, rest.len() as int) =~= path@.subrange(
            share as int,
            path@.len() as int,
        ));
        share_end > share
    } else {
        count >= 3 && char_is_ascii_letter(characters[0]) && characters[1] == ':' && separator(
            characters[2],
        )
    }
}

/// A path on a local drive, as its components.
#[verifier::ext_equal]
pub struct LocalPath {
    pub verbatim: bool,
    /// The letter of the drive, in upper case.
    pub letter: char,
    pub parts: Seq<Seq<char>>,
}

/// A path with every separator written the same way.
pub open spec fn backslashes(path: Seq<char>) -> Seq<char> {
    Seq::new(
        path.len(),
        |i: int|
            if path[i] == '/' {
                '\\'
            } else {
                path[i]
            },
    )
}

/// The components among the texts between separators. An ordinary path skips `.`.
pub open spec fn local_parts(pieces: Seq<Seq<char>>, verbatim: bool) -> Seq<Seq<char>>
    decreases pieces.len(),
{
    if pieces.len() == 0 {
        Seq::empty()
    } else {
        let before = local_parts(pieces.drop_last(), verbatim);
        let last = pieces.last();
        if last.len() == 0 || (last == "."@ && !verbatim) {
            before
        } else {
            before.push(last)
        }
    }
}

/// What stands behind the drive of a path, where the path starts at the root of a local drive.
pub open spec fn behind_drive(path: Seq<char>) -> Option<Seq<char>> {
    if is_verbatim(path) {
        let rest = path.subrange(4, path.len() as int);
        if has_drive(rest) && (rest.len() == 2 || rest[2] == '\\') {
            Some(rest.subrange(2, rest.len() as int))
        } else {
            None
        }
    } else if has_drive(path) && path.len() >= 3 && is_separator(path[2]) {
        Some(backslashes(path.subrange(2, path.len() as int)))
    } else {
        None
    }
}

/// A path that starts at the root of a local drive, as its components.
pub open spec fn drive_path(path: Seq<char>) -> Option<LocalPath> {
    match behind_drive(path) {
        None => None,
        Some(rest) => Some(
            LocalPath {
                verbatim: is_verbatim(path),
                letter: text::ascii_upper(
                    if is_verbatim(path) {
                        path[4]
                    } else {
                        path[0]
                    },
                ),
                parts: local_parts(text::split_on(rest, '\\'), is_verbatim(path)),
            },
        ),
    }
}

impl LocalPath {
    /// Whether every component is a name.
    pub open spec fn is_clean(self) -> bool {
        forall|i: int|
            0 <= i < self.parts.len() ==> #[trigger] self.parts[i] != ".."@ && self.parts[i]
                != "."@
    }
}

/// A path that starts at the root of a local drive and consists of names, as its components.
pub open spec fn local_path(path: Seq<char>) -> Option<LocalPath> {
    match drive_path(path) {
        Some(parsed) => if parsed.is_clean() {
            Some(parsed)
        } else {
            None
        },
        None => None,
    }
}

/// A path on a local drive, taken apart.
pub struct LocalParts {
    pub verbatim: bool,
    pub letter: char,
    pub parts: Vec<String>,
}

impl View for LocalParts {
    type V = LocalPath;

    open spec fn view(&self) -> LocalPath {
        LocalPath {
            verbatim: self.verbatim,
            letter: self.letter,
            parts: text::texts(self.parts@),
        }
    }
}

fn keep_parts(pieces: &Vec<String>, verbatim: bool) -> (parts: Vec<String>)
    ensures
        text::texts(parts@) == local_parts(text::texts(pieces@), verbatim),
{
    let ghost all = text::texts(pieces@);
    let mut parts: Vec<String> = Vec::new();
    let mut index: usize = 0;
    assert(text::texts(parts@) =~= Seq::empty());
    assert(all.take(0) =~= Seq::empty());
    while index < pieces.len()
        invariant
            index <= pieces@.len(),
            all == text::texts(pieces@),
            local_parts(all.take(index as int), verbatim) == text::texts(parts@),
        decreases pieces@.len() - index,
    {
        let piece: &String = &pieces[index];
        let ghost upto = all.take(index as int + 1);
        assert(upto.drop_last() =~= all.take(index as int));
        assert(upto.last() == piece@);
        if !piece.as_str().is_empty() && (verbatim || !same_text(piece.as_str(), ".")) {
            let ghost before = text::texts(parts@);
            parts.push(piece.clone());
            assert(text::texts(parts@) =~= before.push(piece@));
        }
        index += 1;
    }
    assert(all.take(all.len() as int) =~= all);
    parts
}

fn with_backslashes(path: &str) -> (result: String)
    ensures
        result@ == backslashes(path@),
{
    let characters = chars_of(path);
    let mut result = String::new();
    let mut index: usize = 0;
    while index < characters.len()
        invariant
            index <= characters@.len(),
            characters@ == path@,
            result@ == backslashes(path@).take(index as int),
        decreases characters@.len() - index,
    {
        assert(backslashes(path@).take(index as int + 1) =~= backslashes(path@).take(
            index as int,
        ).push(backslashes(path@)[index as int]));
        if characters[index] == '/' {
            result.push('\\');
        } else {
            result.push(characters[index]);
        }
        index += 1;
    }
    assert(backslashes(path@).take(path@.len() as int) =~= backslashes(path@));
    result
}

/// Take a path on a local drive apart.
pub fn parse_drive_path(path: &str) -> (result: Option<LocalParts>)
    ensures
        match result {
            Some(parsed) => drive_path(path@) == Some(parsed@),
            None => drive_path(path@) is None,
        },
{
    let characters = chars_of(path);
    let count: usize = characters.len();
    let verbatim = has_prefix(&characters, "\\\\?\\").is_some();
    proof {
        reveal_strlit("\\\\?\\");
    }
    let from: usize = if verbatim {
        4
    } else {
        0
    };
    if count - from < 2 || !char_is_ascii_letter(characters[from]) || characters[from + 1] != ':' {
        return None;
    }
    let ghost after = path@.subrange(from as int, path@.len() as int);
    assert(has_drive(after));
    if verbatim {
        if count > 6 && characters[6] != '\\' {
            assert(after[2] == path@[6]);
            return None;
        }
    } else if count < 3 || !separator(characters[2]) {
        return None;
    }
    let behind = text_between(&characters, from + 2, count);
    let rest = if verbatim {
        behind
    } else {
        with_backslashes(behind.as_str())
    };
    proof {
        assert(after.subrange(2, after.len() as int) =~= path@.subrange(
            from + 2,
            path@.len() as int,
        ));
        if !verbatim {
            assert(after =~= path@);
        }
        assert(behind_drive(path@) == Some(rest@));
    }
    let pieces = split_text(rest.as_str(), '\\');
    let parts = keep_parts(&pieces, verbatim);
    let letter: char = characters[from];
    let upper: char = if 'a' <= letter && letter <= 'z' {
        (letter as u8 - 32) as char
    } else {
        letter
    };
    Some(LocalParts { verbatim, letter: upper, parts })
}

impl LocalParts {
    /// Whether every component is a name.
    pub fn is_clean(&self) -> (result: bool)
        ensures
            result == self@.is_clean(),
    {
        let mut index: usize = 0;
        while index < self.parts.len()
            invariant
                index <= self.parts@.len(),
                forall|i: int|
                    0 <= i < index ==> #[trigger] self@.parts[i] != ".."@ && self@.parts[i] != "."@,
            decreases self.parts@.len() - index,
        {
            let part = self.parts[index].as_str();
            if same_text(part, "..") || same_text(part, ".") {
                assert(self@.parts[index as int] == part@);
                return false;
            }
            index += 1;
        }
        true
    }
}

/// Take a path on a local drive apart, where it consists of names.
pub fn parse_local_path(path: &str) -> (result: Option<LocalParts>)
    ensures
        match result {
            Some(parsed) => local_path(path@) == Some(parsed@),
            None => local_path(path@) is None,
        },
{
    match parse_drive_path(path) {
        Some(parsed) => if parsed.is_clean() {
            Some(parsed)
        } else {
            None
        },
        None => None,
    }
}

/// The letter of the local drive that a clean path starts at.
pub fn windows_local_disk(path: &str) -> (result: Option<char>)
    ensures
        result == (match local_path(path@) {
            Some(parsed) => Some(parsed.letter),
            None => None,
        }),
{
    match parse_local_path(path) {
        Some(parsed) => Some(parsed.letter),
        None => None,
    }
}

/// Whether a path starts at the root of a local drive and never goes up.
pub fn is_clean_windows_absolute_path(path: &str) -> (result: bool)
    ensures
        result == local_path(path@) is Some,
{
    windows_local_disk(path).is_some()
}

// ---------------------------------------------------------------------------------------------
// Paths of any kind
// ---------------------------------------------------------------------------------------------

/// Whether a character ends a component. In a verbatim path only the backslash does.
pub open spec fn is_boundary(c: char, verbatim: bool) -> bool {
    c == '\\' || (!verbatim && c == '/')
}

/// How many characters stand before the next boundary.
pub open spec fn component_length(path: Seq<char>, verbatim: bool) -> int
    decreases path.len(),
{
    if path.len() == 0 || is_boundary(path[0], verbatim) {
        0
    } else {
        1 + component_length(path.drop_first(), verbatim)
    }
}

fn component_end(characters: &Vec<char>, from: usize, verbatim: bool) -> (at: usize)
    requires
        from <= characters@.len(),
    ensures
        from <= at <= characters@.len(),
        at - from == component_length(
            characters@.subrange(from as int, characters@.len() as int),
            verbatim,
        ),
{
    let ghost all = characters@;
    let mut index: usize = from;
    while index < characters.len() && !(characters[index] == '\\' || (!verbatim
        && characters[index] == '/'))
        invariant
            from <= index <= characters@.len(),
            all == characters@,
            component_length(all.subrange(from as int, all.len() as int), verbatim) == index - from
                + component_length(all.subrange(index as int, all.len() as int), verbatim),
        decreases characters@.len() - index,
    {
        let ghost rest = all.subrange(index as int, all.len() as int);
        assert(rest.drop_first() =~= all.subrange(index as int + 1, all.len() as int));
        index += 1;
    }
    index
}

/// The server and the share that a text starts with: how many characters each has.
pub open spec fn share_lengths(path: Seq<char>, verbatim: bool) -> (int, int) {
    let server = component_length(path, verbatim);
    if server < path.len() {
        (
            server,
            component_length(path.subrange(server + 1, path.len() as int), verbatim),
        )
    } else {
        (server, 0)
    }
}

fn share_ends(characters: &Vec<char>, from: usize, verbatim: bool) -> (ends: (usize, usize))
    requires
        from <= characters@.len(),
    ensures
        ({
            let (server, share) = share_lengths(
                characters@.subrange(from as int, characters@.len() as int),
                verbatim,
            );
            &&& from + server == ends.0 <= characters@.len()
            &&& ends.1 == (if share > 0 {
                ends.0 + 1 + share
            } else {
                ends.0 as int
            })
            &&& ends.1 <= characters@.len()
        }),
{
    let ghost rest = characters@.subrange(from as int, characters@.len() as int);
    let server: usize = component_end(characters, from, verbatim);
    if server == characters.len() {
        return (server, server);
    }
    let share: usize = component_end(characters, server + 1, verbatim);
    assert(rest.subrange(server - from + 1, rest.len() as int) =~= characters@.subrange(
        server as int + 1,
        characters@.len() as int,
    ));
    if share > server + 1 {
        (server, share)
    } else {
        (server, server)
    }
}

/// How many characters the prefix of a path has: a drive, a share on a server, a device, or what a
/// verbatim path begins with. Zero where it has none.
pub open spec fn prefix_length(path: Seq<char>) -> int {
    if path.len() >= 2 && is_separator(path[0]) && is_separator(path[1]) {
        if is_verbatim(path) {
            let rest = path.subrange(4, path.len() as int);
            if rest.len() >= 4 && rest.take(3) == "UNC"@ && is_separator(rest[3]) {
                let (server, share) = share_lengths(path.subrange(8, path.len() as int), true);
                8 + server + if share > 0 {
                    1 + share
                } else {
                    0
                }
            } else if has_drive(rest) && (rest.len() == 2 || is_separator(rest[2])) {
                6
            } else {
                4 + component_length(rest, true)
            }
        } else if path.len() >= 4 && path[2] == '.' && is_separator(path[3]) {
            4 + component_length(path.subrange(4, path.len() as int), false)
        } else {
            let (server, share) = share_lengths(path.subrange(2, path.len() as int), false);
            if server > 0 && share > 0 {
                2 + server + 1 + share
            } else {
                0
            }
        }
    } else if has_drive(path) {
        2
    } else {
        0
    }
}

fn prefix_end(characters: &Vec<char>) -> (end: usize)
    ensures
        end == prefix_length(characters@),
        end <= characters@.len(),
{
    let count: usize = characters.len();
    if !(count >= 2 && separator(characters[0]) && separator(characters[1])) {
        if count >= 2 && char_is_ascii_letter(characters[0]) && characters[1] == ':' {
            return 2;
        }
        return 0;
    }
    proof {
        reveal_strlit("\\\\?\\");
        reveal_strlit("UNC");
    }
    if has_prefix(characters, "\\\\?\\").is_some() {
        let ghost rest = characters@.subrange(4, characters@.len() as int);
        if count >= 8 && characters[4] == 'U' && characters[5] == 'N' && characters[6] == 'C'
            && separator(characters[7]) {
            assert(rest.take(3) =~= "UNC"@);
            return share_ends(characters, 8, true).1;
        }
        proof {
            if rest.len() >= 4 && rest.take(3) == "UNC"@ {
                assert(rest.take(3)[0] == 'U' && rest.take(3)[1] == 'N' && rest.take(3)[2] == 'C');
            }
        }
        if count >= 6 && char_is_ascii_letter(characters[4]) && characters[5] == ':' && (count == 6
            || separator(characters[6])) {
            return 6;
        }
        return component_end(characters, 4, true);
    }
    if count >= 4 && characters[2] == '.' && separator(characters[3]) {
        return component_end(characters, 4, false);
    }
    let (server, share) = share_ends(characters, 2, false);
    if server > 2 && share > server {
        share
    } else {
        0
    }
}

/// Whether a path goes on behind its prefix and its root, so that it lies in a directory.
pub open spec fn has_parent(path: Seq<char>) -> bool {
    let verbatim = is_verbatim(path);
    let prefix = prefix_length(path);
    let behind = path.subrange(prefix, path.len() as int);
    let rooted = behind.len() > 0 && is_separator(behind[0]);
    let body = if rooted {
        behind.drop_first()
    } else {
        behind
    };
    let pieces = text::split_on(
        if verbatim {
            body
        } else {
            backslashes(body)
        },
        '\\',
    );
    ||| local_parts(pieces, verbatim).len() > 0
    ||| !rooted && (prefix == 0 || has_drive(path)) && pieces[0] == "."@
}

/// Whether a path lies in a directory.
pub fn lies_in_directory(path: &str) -> (result: bool)
    ensures
        result == has_parent(path@),
{
    let characters = chars_of(path);
    let count: usize = characters.len();
    let verbatim = has_prefix(&characters, "\\\\?\\").is_some();
    let prefix: usize = prefix_end(&characters);
    let rooted = prefix < count && separator(characters[prefix]);
    let from: usize = if rooted {
        prefix + 1
    } else {
        prefix
    };
    let body = text_between(&characters, from, count);
    proof {
        let behind = path@.subrange(prefix as int, path@.len() as int);
        assert(body@ =~= if rooted {
            behind.drop_first()
        } else {
            behind
        });
    }
    let rest = if verbatim {
        body
    } else {
        with_backslashes(body.as_str())
    };
    let pieces = split_text(rest.as_str(), '\\');
    proof {
        text::split_is_never_empty(rest@, '\\');
        assert(text::texts(pieces@)[0] == pieces@[0]@);
    }
    let parts = keep_parts(&pieces, verbatim);
    assert(text::texts(parts@).len() == parts@.len());
    if parts.len() > 0 {
        return true;
    }
    let drive = count >= 2 && char_is_ascii_letter(characters[0]) && characters[1] == ':';
    !rooted && (prefix == 0 || drive) && same_text(pieces[0].as_str(), ".")
}

/// The shortest text of a path with these components.
pub open spec fn local_text(path: LocalPath) -> Seq<char> {
    let drive = seq![path.letter, ':', '\\'] + joined(path.parts);
    if path.verbatim {
        "\\\\?\\"@ + drive
    } else {
        drive
    }
}

/// Components with one separator between each two.
pub open spec fn joined(parts: Seq<Seq<char>>) -> Seq<char>
    decreases parts.len(),
{
    if parts.len() == 0 {
        Seq::empty()
    } else if parts.len() == 1 {
        parts[0]
    } else {
        joined(parts.drop_last()).push('\\') + parts.last()
    }
}

/// The directory that a path on a local drive lies in.
pub fn local_parent(parsed: &LocalParts) -> (result: String)
    requires
        parsed.parts@.len() > 0,
    ensures
        result@ == local_text((LocalPath { parts: parsed@.parts.drop_last(), ..parsed@ })),
{
    let last: usize = parsed.parts.len() - 1;
    let ghost all = text::texts(parsed.parts@);
    let mut body = String::new();
    let mut index: usize = 0;
    assert(joined(all.take(0)) =~= Seq::<char>::empty());
    while index < last
        invariant
            index <= last < parsed.parts@.len(),
            all == text::texts(parsed.parts@),
            body@ == joined(all.take(index as int)),
        decreases last - index,
    {
        let ghost next = all.take(index as int + 1);
        assert(next.drop_last() =~= all.take(index as int));
        if index > 0 {
            body.push('\\');
        } else {
            assert(Seq::<char>::empty() + next[0] =~= next[0]);
        }
        body.append(parsed.parts[index].as_str());
        assert(body@ =~= joined(next));
        index += 1;
    }
    assert(all.take(last as int) =~= all.drop_last());
    let mut result = if parsed.verbatim {
        "\\\\?\\".to_owned()
    } else {
        String::new()
    };
    result.push(parsed.letter);
    result.push(':');
    result.push('\\');
    result.append(body.as_str());
    let ghost parent = LocalPath { parts: all.drop_last(), ..parsed@ };
    assert(result@ =~= local_text(parent));
    result
}

/// Whether `path` is the direct member `name` of a directory: both are clean local paths, and the
/// path's components are those of the directory and the name.
pub open spec fn is_local_member(path: Seq<char>, directory: Seq<char>, name: Seq<char>) -> bool {
    match (local_path(path), local_path(directory)) {
        (Some(member), Some(parent)) => member == (LocalPath {
            parts: parent.parts.push(name),
            ..parent
        }),
        _ => false,
    }
}

/// Whether `path` is the direct member `name` of `directory`.
pub fn is_local_member_path(path: &str, directory: &str, name: &str) -> (result: bool)
    ensures
        result == is_local_member(path@, directory@, name@),
{
    let member = match parse_local_path(path) {
        Some(member) => member,
        None => {
            return false;
        },
    };
    let parent = match parse_local_path(directory) {
        Some(parent) => parent,
        None => {
            return false;
        },
    };
    let ghost wanted = parent@.parts.push(name@);
    if member.verbatim != parent.verbatim || member.letter != parent.letter || member.parts.len()
        == 0 || member.parts.len() - 1 != parent.parts.len() {
        assert(member@.parts.len() == member.parts@.len());
        assert(wanted.len() == parent.parts@.len() + 1);
        return false;
    }
    let last: usize = parent.parts.len();
    if !same_text(member.parts[last].as_str(), name) {
        assert(member@.parts[last as int] != wanted[last as int]);
        return false;
    }
    let mut index: usize = 0;
    while index < last
        invariant
            index <= last,
            last == parent.parts@.len(),
            member.parts@.len() == last + 1,
            local_path(path@) == Some(member@),
            local_path(directory@) == Some(parent@),
            wanted == parent@.parts.push(name@),
            member@.parts[last as int] == name@,
            forall|i: int| 0 <= i < index ==> member@.parts[i] == wanted[i],
        decreases last - index,
    {
        if member.parts[index] != parent.parts[index] {
            assert(member@.parts[index as int] != wanted[index as int]);
            return false;
        }
        index += 1;
    }
    assert(member@.parts =~= wanted);
    true
}

// ---------------------------------------------------------------------------------------------
// Members of a directory
// ---------------------------------------------------------------------------------------------

/// Whether a name can follow the text of a directory without a separator between them.
pub open spec fn ends_open(directory: Seq<char>) -> bool {
    ||| directory.len() == 0
    ||| directory.last() == '\\'
    ||| directory.last() == '/' && !is_verbatim(directory)
    ||| directory.len() == 2 && has_drive(directory)
}

/// The text of the path of a member of a directory.
pub open spec fn member_text(directory: Seq<char>, name: Seq<char>) -> Seq<char> {
    if ends_open(directory) {
        directory + name
    } else {
        directory.push('\\') + name
    }
}

/// The path of a member of a directory.
pub fn member_path(directory: &str, name: &str) -> (result: String)
    ensures
        result@ == member_text(directory@, name@),
{
    let characters = chars_of(directory);
    let count: usize = characters.len();
    let open = if count == 0 {
        true
    } else {
        let last: char = characters[count - 1];
        last == '\\' || (last == '/' && has_prefix(&characters, "\\\\?\\").is_none()) || (count == 2
            && char_is_ascii_letter(characters[0]) && characters[1] == ':')
    };
    let mut result = directory.to_owned();
    if !open {
        result.push('\\');
    }
    result.append(name);
    result
}

/// Whether a name can be one component of a path.
pub open spec fn is_plain_name(name: Seq<char>, verbatim: bool) -> bool {
    &&& name.len() > 0
    &&& name != "."@
    &&& name != ".."@
    &&& forall|i: int|
        0 <= i < name.len() ==> #[trigger] name[i] != '\\' && (name[i] != '/' || verbatim)
}

proof fn name_is_the_last_part(rest: Seq<char>, name: Seq<char>, verbatim: bool)
    requires
        is_plain_name(name, verbatim),
    ensures
        ({
            let front = if rest.len() > 0 && rest.last() == '\\' {
                rest
            } else {
                rest.push('\\')
            };
            local_parts(text::split_on(front + name, '\\'), verbatim) == local_parts(
                text::split_on(rest, '\\'),
                verbatim,
            ).push(name)
        }),
{
    let front = if rest.len() > 0 && rest.last() == '\\' {
        rest
    } else {
        rest.push('\\')
    };
    let head = front.drop_last();
    text::split_of_appended(front, name, '\\');
    text::split_ends_empty_after_separator(front, '\\');
    let pieces = text::split_on(head, '\\');
    let with_separator = text::split_on(front, '\\');
    assert(with_separator.drop_last() =~= pieces);
    assert(with_separator.last() =~= Seq::<char>::empty());
    assert(Seq::<char>::empty() + name =~= name);
    let split = text::split_on(front + name, '\\');
    assert(split.drop_last() =~= pieces);
    assert(split.last() == name);
    assert(local_parts(with_separator, verbatim) == local_parts(pieces, verbatim));
    if rest.len() == 0 || rest.last() != '\\' {
        assert(head =~= rest);
    }
}

proof fn member_keeps_its_drive(directory: Seq<char>, name: Seq<char>)
    requires
        behind_drive(directory) is Some,
        is_plain_name(name, is_verbatim(directory)),
    ensures
        ({
            let rest = behind_drive(directory)->0;
            let front = if rest.len() > 0 && rest.last() == '\\' {
                rest
            } else {
                rest.push('\\')
            };
            let path = member_text(directory, name);
            &&& is_verbatim(path) == is_verbatim(directory)
            &&& behind_drive(path) == Some(front + name)
            &&& path[0] == directory[0]
            &&& is_verbatim(path) ==> path[4] == directory[4]
        }),
{
    reveal_strlit("\\\\?\\");
    let path = member_text(directory, name);
    let rest = behind_drive(directory)->0;
    let front = if rest.len() > 0 && rest.last() == '\\' {
        rest
    } else {
        rest.push('\\')
    };
    if is_verbatim(directory) {
        let after = directory.subrange(4, directory.len() as int);
        assert(directory.take(4) == "\\\\?\\"@);
        assert(path.take(4) =~= directory.take(4));
        assert(directory.last() == after.last());
        assert(rest.len() > 0 ==> rest.last() == after.last());
        assert(rest.len() == 0 ==> after.last() == ':');
        let longer = path.subrange(4, path.len() as int);
        assert(longer =~= after.take(2) + front + name);
        assert(longer.subrange(2, longer.len() as int) =~= front + name);
        assert(longer[0] == after[0] && longer[1] == after[1]);
        assert(longer[2] == '\\');
    } else {
        assert(directory[0] != '\\');
        assert(path[0] == directory[0] && path[1] == directory[1] && path[2] == directory[2]);
        assert(path.take(4)[0] == path[0]);
        assert(!is_verbatim(path));
        let after = directory.subrange(2, directory.len() as int);
        assert(after.last() == directory.last());
        assert(rest.last() == backslashes(after)[after.len() - 1]);
        assert(backslashes(path.subrange(2, path.len() as int)) =~= front + name);
    }
}

/// The member `name` of a clean directory on a local drive is a path that lies directly in that
/// directory under that name.
pub proof fn member_lies_in_its_directory(directory: Seq<char>, name: Seq<char>)
    requires
        local_path(directory) matches Some(parent) && is_plain_name(name, parent.verbatim),
    ensures
        is_local_member(member_text(directory, name), directory, name),
        is_absolute_text(member_text(directory, name)),
{
    let path = member_text(directory, name);
    let parent = local_path(directory)->0;
    member_keeps_its_drive(directory, name);
    name_is_the_last_part(behind_drive(directory)->0, name, parent.verbatim);
    let member = drive_path(path)->0;
    assert(member.parts == parent.parts.push(name));
    assert forall|i: int| 0 <= i < member.parts.len() implies #[trigger] member.parts[i] != ".."@
        && member.parts[i] != "."@ by {
        if i < parent.parts.len() {
            assert(member.parts[i] == parent.parts[i]);
        }
    }
    assert(member == (LocalPath { parts: parent.parts.push(name), ..parent }));
    reveal_strlit("\\\\?\\");
    if parent.verbatim {
        assert(path.take(4)[0] == path[0] && path.take(4)[1] == path[1]);
    } else {
        assert(path[0] != '\\' && path[0] != '/');
    }
}

proof fn local_parts_are_pieces(pieces: Seq<Seq<char>>, verbatim: bool)
    ensures
        forall|i: int|
            0 <= i < local_parts(pieces, verbatim).len() ==> {
                &&& (#[trigger] local_parts(pieces, verbatim)[i]).len() > 0
                &&& pieces.contains(local_parts(pieces, verbatim)[i])
            },
    decreases pieces.len(),
{
    if pieces.len() > 0 {
        let front = pieces.drop_last();
        local_parts_are_pieces(front, verbatim);
        let before = local_parts(front, verbatim);
        let after = local_parts(pieces, verbatim);
        assert forall|i: int| 0 <= i < after.len() implies (#[trigger] after[i]).len() > 0
            && pieces.contains(after[i]) by {
            if i < before.len() {
                assert(after[i] == before[i]);
                let k = choose|k: int| 0 <= k < front.len() && front[k] == before[i];
                assert(pieces[k] == after[i]);
            } else {
                assert(pieces[pieces.len() - 1] == after[i]);
            }
        }
    }
}

proof fn root_reads_back(letter: char, verbatim: bool)
    requires
        text::is_ascii_letter(letter),
        text::ascii_upper(letter) == letter,
    ensures
        ({
            let root = LocalPath { verbatim, letter, parts: Seq::empty() };
            local_path(local_text(root)) == Some(root)
        }),
{
    reveal_strlit("\\\\?\\");
    let root = LocalPath { verbatim, letter, parts: Seq::empty() };
    let path = local_text(root);
    let slash = seq!['\\'];
    let drive = seq![letter, ':', '\\'];
    assert(drive + joined(root.parts) =~= drive);
    if verbatim {
        assert(path.take(4) =~= "\\\\?\\"@);
        assert(path.subrange(4, path.len() as int) =~= drive);
        assert(drive.subrange(2, 3) =~= slash);
    } else {
        assert(path.len() == 3);
        assert(path.subrange(2, 3) =~= slash);
        assert(backslashes(slash) =~= slash);
    }
    assert(behind_drive(path) == Some(slash));
    let empty = Seq::<char>::empty();
    assert(slash.drop_last() =~= empty);
    assert(text::split_on(empty, '\\') =~= seq![empty]);
    assert(text::split_on(slash, '\\') =~= seq![empty, empty]);
    assert(seq![empty, empty].drop_last() =~= seq![empty]);
    assert(seq![empty].drop_last() =~= Seq::<Seq<char>>::empty());
    assert(local_parts(Seq::<Seq<char>>::empty(), verbatim) =~= Seq::<Seq<char>>::empty());
    assert(local_parts(seq![empty], verbatim) =~= Seq::<Seq<char>>::empty());
    assert(local_parts(seq![empty, empty], verbatim) =~= Seq::<Seq<char>>::empty());
    assert(drive_path(path) == Some(root));
}

proof fn local_text_ends(path: LocalPath)
    requires
        forall|i: int|
            0 <= i < path.parts.len() ==> is_plain_name(#[trigger] path.parts[i], path.verbatim),
    ensures
        local_text(path).len() >= 3,
        is_verbatim(local_text(path)) || !path.verbatim,
        path.parts.len() == 0 ==> local_text(path).last() == '\\',
        path.parts.len() > 0 ==> local_text(path).last() == path.parts.last().last(),
{
    reveal_strlit("\\\\?\\");
    if path.verbatim {
        assert(local_text(path).take(4) =~= "\\\\?\\"@);
    }
    if path.parts.len() > 0 {
        assert(is_plain_name(path.parts[path.parts.len() - 1], path.verbatim));
        assert(joined(path.parts).last() == path.parts.last().last());
    }
}

proof fn text_of_a_member(path: LocalPath)
    requires
        path.parts.len() > 0,
        forall|i: int|
            0 <= i < path.parts.len() ==> is_plain_name(#[trigger] path.parts[i], path.verbatim),
    ensures
        member_text(
            local_text(LocalPath { parts: path.parts.drop_last(), ..path }),
            path.parts.last(),
        ) == local_text(path),
{
    let before = LocalPath { parts: path.parts.drop_last(), ..path };
    let directory = local_text(before);
    assert forall|i: int| 0 <= i < before.parts.len() implies is_plain_name(
        #[trigger] before.parts[i],
        path.verbatim,
    ) by {
        assert(before.parts[i] == path.parts[i]);
    }
    local_text_ends(before);
    if before.parts.len() > 0 {
        let last = before.parts.last();
        assert(is_plain_name(before.parts[before.parts.len() - 1], path.verbatim));
        assert(last[last.len() - 1] != '\\');
        assert(!ends_open(directory));
    }
    assert(member_text(directory, path.parts.last()) =~= local_text(path));
}

proof fn names_read_back(path: LocalPath)
    requires
        text::is_ascii_letter(path.letter),
        text::ascii_upper(path.letter) == path.letter,
        forall|i: int|
            0 <= i < path.parts.len() ==> is_plain_name(#[trigger] path.parts[i], path.verbatim),
    ensures
        local_path(local_text(path)) == Some(path),
    decreases path.parts.len(),
{
    let parts = path.parts;
    if parts.len() == 0 {
        assert(parts =~= Seq::empty());
        root_reads_back(path.letter, path.verbatim);
    } else {
        let before = LocalPath { parts: parts.drop_last(), ..path };
        let name = parts.last();
        assert(is_plain_name(parts[parts.len() - 1], path.verbatim));
        assert forall|i: int| 0 <= i < before.parts.len() implies is_plain_name(
            #[trigger] before.parts[i],
            path.verbatim,
        ) by {
            assert(before.parts[i] == parts[i]);
        }
        names_read_back(before);
        let directory = local_text(before);
        member_lies_in_its_directory(directory, name);
        assert(before.parts.push(name) =~= parts);
        text_of_a_member(path);
    }
}

/// A clean path on a local drive has the same components in its shortest text.
pub proof fn clean_path_reads_back(path: Seq<char>)
    requires
        local_path(path) is Some,
    ensures
        local_path(local_text(local_path(path)->0)) == local_path(path),
{
    let parsed = local_path(path)->0;
    let rest = behind_drive(path)->0;
    reveal_strlit("\\\\?\\");
    if parsed.verbatim {
        assert(path.subrange(4, path.len() as int)[0] == path[4]);
        text::upper_letter_is_a_letter(path[4]);
    } else {
        text::upper_letter_is_a_letter(path[0]);
    }
    let pieces = text::split_on(rest, '\\');
    text::pieces_hold_no_separator(rest, '\\');
    local_parts_are_pieces(pieces, parsed.verbatim);
    assert forall|i: int| 0 <= i < parsed.parts.len() implies is_plain_name(
        #[trigger] parsed.parts[i],
        parsed.verbatim,
    ) by {
        let part = local_parts(pieces, parsed.verbatim)[i];
        let k = choose|k: int| 0 <= k < pieces.len() && pieces[k] == part;
        assert forall|j: int| 0 <= j < part.len() implies #[trigger] part[j] != '\\' && (part[j]
            != '/' || parsed.verbatim) by {
            assert(text::split_on(rest, '\\')[k][j] != '\\');
            if !parsed.verbatim {
                text::pieces_are_made_of_the_text(rest, '\\', k, j);
            }
        }
    }
    names_read_back(parsed);
}

/// A path that does not start with two separators is absolute exactly where it starts with a drive
/// letter, a colon and a separator.
pub proof fn drive_paths_are_absolute_from_their_root(path: Seq<char>)
    requires
        !(path.len() >= 2 && is_separator(path[0]) && is_separator(path[1])),
    ensures
        is_absolute_text(path) <==> path.len() >= 3 && (('a' <= path[0] && path[0] <= 'z') || ('A'
            <= path[0] && path[0] <= 'Z')) && path[1] == ':' && (path[2] == '\\' || path[2]
            == '/'),
        is_absolute_text(path) <==> behind_drive(path) is Some && !is_verbatim(path),
{
    if is_verbatim(path) {
        reveal_strlit("\\\\?\\");
        assert(path.take(4)[0] == '\\' && path.take(4)[1] == '\\');
        assert(path[0] == path.take(4)[0] && path[1] == path.take(4)[1]);
    }
}

/// The next separator of a text is the first one: none stands before it.
pub proof fn next_separator_is_the_first(path: Seq<char>)
    ensures
        0 <= next_separator(path) <= path.len(),
        next_separator(path) < path.len() ==> is_separator(path[next_separator(path)]),
        forall|i: int| 0 <= i < next_separator(path) ==> !is_separator(#[trigger] path[i]),
    decreases path.len(),
{
    if path.len() > 0 && !is_separator(path[0]) {
        let rest = path.drop_first();
        next_separator_is_the_first(rest);
        assert forall|i: int| 0 <= i < next_separator(path) implies !is_separator(
            #[trigger] path[i],
        ) by {
            if i > 0 {
                assert(rest[i - 1] == path[i]);
            }
        }
        if next_separator(rest) < rest.len() {
            assert(rest[next_separator(rest)] == path[next_separator(rest) + 1]);
        }
    }
}

/// Both separators count the same in an ordinary path: writing every one of them as a backslash
/// changes neither its drive nor its components.
pub proof fn separators_count_the_same(path: Seq<char>)
    requires
        !is_verbatim(path),
        !is_verbatim(backslashes(path)),
    ensures
        drive_path(backslashes(path)) == drive_path(path),
{
    let other = backslashes(path);
    if path.len() >= 3 {
        let (rest, same) = (
            path.subrange(2, path.len() as int),
            other.subrange(2, other.len() as int),
        );
        assert(backslashes(same) =~= backslashes(rest));
    }
}

/// A path is clean exactly where it starts at the root of a local drive and none of its components
/// is one of the two dots; it then has the letter of its drive, in upper case.
pub proof fn clean_local_path_is_made_of_names(path: Seq<char>)
    ensures
        local_path(path) is Some <==> behind_drive(path) is Some && forall|i: int|
            0 <= i < drive_path(path)->0.parts.len() ==> #[trigger] drive_path(path)->0.parts[i]
                != ".."@ && drive_path(path)->0.parts[i] != "."@,
        local_path(path) matches Some(parsed) ==> drive_path(path) == Some(parsed),
        drive_path(path) matches Some(parsed) ==> 'A' <= parsed.letter <= 'Z',
{
    reveal_strlit("\\\\?\\");
    if is_verbatim(path) && behind_drive(path) is Some {
        let rest = path.subrange(4, path.len() as int);
        assert(rest[0] == path[4]);
    }
}

} // verus!
