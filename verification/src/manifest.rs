//! The manifest codec: a project definition serialized to, and parsed back
//! from, its `project.yaml` document. Values that a plain scalar cannot
//! carry (newlines, quotes, leading or trailing whitespace) are written as
//! double-quoted scalars with backslash escapes, so that serializing and
//! parsing round-trip for every definition.

use vstd::prelude::*;

use crate::project::GitSource;
use crate::project::ProjectFile;
use crate::project::SpecProjectFile;
use crate::strings::is_blank;
use crate::strings::is_space;
use crate::strings::is_space_char;
use crate::strings::lemma_split_concat;
use crate::strings::lemma_split_no_sep;
use crate::strings::push_char;
use crate::strings::spec_blank;
use crate::strings::spec_split;
use crate::strings::spec_trim;
use crate::strings::split_str;
use crate::strings::str_contains_char;
use crate::strings::str_eq;
use crate::strings::strip_prefix_str;
use crate::strings::trim;

verus! {

/// How one character is written inside a quoted scalar.
pub open spec fn escape_char_seq(c: char) -> Seq<char> {
    if c == '\\' {
        seq!['\\', '\\']
    } else if c == '"' {
        seq!['\\', '"']
    } else if c == '\n' {
        seq!['\\', 'n']
    } else if c == '\r' {
        seq!['\\', 'r']
    } else if c == '\t' {
        seq!['\\', 't']
    } else {
        seq![c]
    }
}

/// The body of a quoted scalar: every character escaped.
pub open spec fn spec_escape(s: Seq<char>) -> Seq<char>
    decreases s.len(),
{
    if s.len() == 0 {
        Seq::<char>::empty()
    } else {
        escape_char_seq(s[0]) + spec_escape(s.drop_first())
    }
}

/// The character an escape letter denotes, when it is a valid one.
pub open spec fn unescape_char(c: char) -> Option<char> {
    if c == '\\' {
        Some('\\')
    } else if c == '"' {
        Some('"')
    } else if c == 'n' {
        Some('\n')
    } else if c == 'r' {
        Some('\r')
    } else if c == 't' {
        Some('\t')
    } else {
        None
    }
}

/// Reads a quoted scalar's body back: a backslash must be followed by a
/// valid escape letter; any other character stands for itself.
pub open spec fn spec_unescape(s: Seq<char>) -> Option<Seq<char>>
    decreases s.len(),
{
    if s.len() == 0 {
        Some(Seq::<char>::empty())
    } else if s[0] == '\\' {
        if s.len() == 1 {
            None
        } else {
            match unescape_char(s[1]) {
                None => None,
                Some(d) => match spec_unescape(s.skip(2)) {
                    None => None,
                    Some(rest) => Some(seq![d] + rest),
                },
            }
        }
    } else {
        match spec_unescape(s.drop_first()) {
            None => None,
            Some(rest) => Some(seq![s[0]] + rest),
        }
    }
}

/// Whether a value must be written quoted: a plain scalar cannot carry a
/// newline or a quote, nor survive the trimming of its ends.
pub open spec fn needs_quoting(v: Seq<char>) -> bool {
    ||| v.contains('\n')
    ||| v.contains('"')
    ||| (v.len() > 0 && (is_space_char(v[0]) || is_space_char(v.last())))
}

/// How a value stands in its manifest line: plain, or quoted and escaped.
pub open spec fn render_value(v: Seq<char>) -> Seq<char> {
    if needs_quoting(v) {
        seq!['"'] + spec_escape(v) + seq!['"']
    } else {
        v
    }
}

/// The value a trimmed field text denotes: a quoted scalar is unescaped,
/// anything else stands for itself.
pub open spec fn decode_value(t: Seq<char>) -> Option<Seq<char>> {
    if t.len() >= 2 && t[0] == '"' && t.last() == '"' {
        spec_unescape(t.subrange(1, t.len() - 1))
    } else {
        Some(t)
    }
}

/// The document without the blank lines at its end.
pub open spec fn drop_trailing_blanks(ls: Seq<Seq<char>>) -> Seq<Seq<char>>
    decreases ls.len(),
{
    if ls.len() > 0 && spec_blank(ls.last()) {
        drop_trailing_blanks(ls.drop_last())
    } else {
        ls
    }
}

/// The document that a project definition serializes to.
pub open spec fn spec_manifest(f: SpecProjectFile) -> Seq<char> {
    "name: "@ + render_value(f.name) + "\n"@ + "source:"@ + "\n"@ + "  url: "@ + render_value(
        f.url,
    ) + "\n"@ + "  branch: "@ + render_value(f.branch) + "\n"@ + "  path: "@ + render_value(f.path)
        + "\n"@
}

/// The value of one `key: value` line: what follows the key prefix,
/// trimmed and decoded.
pub open spec fn spec_field(line: Seq<char>, prefix: Seq<char>) -> Option<Seq<char>> {
    if line.len() >= prefix.len() && line.take(prefix.len() as int) == prefix {
        decode_value(spec_trim(line.skip(prefix.len() as int)))
    } else {
        None
    }
}

/// What parsing a manifest document yields: after an optional leading
/// document marker and ignoring trailing blank lines, exactly the five
/// lines of the serialized form, in order, with each value trimmed and
/// decoded. This is the manifest interface's canonical grammar — the one
/// `spec_manifest` writes: keys in this order, two-space indentation, and
/// double-quoted scalars where quoting is needed. A hand-maintained
/// manifest must keep this shape; anything else is rejected rather than
/// guessed at, and one rejected manifest aborts the whole listing.
pub open spec fn spec_parse_manifest(s: Seq<char>) -> Option<SpecProjectFile> {
    let all = spec_split(s, '\n');
    let body = if all.len() > 0 && all[0] == "---"@ {
        all.drop_first()
    } else {
        all
    };
    let lines = drop_trailing_blanks(body);
    if lines.len() != 5 {
        None
    } else {
        let name = spec_field(lines[0], "name: "@);
        let url = spec_field(lines[2], "  url: "@);
        let branch = spec_field(lines[3], "  branch: "@);
        let path = spec_field(lines[4], "  path: "@);
        if lines[1] == "source:"@ && name is Some && url is Some && branch is Some
            && path is Some {
            Some(
                SpecProjectFile {
                    name: name->0,
                    url: url->0,
                    branch: branch->0,
                    path: path->0,
                },
            )
        } else {
            None
        }
    }
}

/// Appends the escaped body of a quoted scalar.
fn push_escaped(out: &mut String, v: &str)
    ensures
        final (out)@ == old(out)@ + spec_escape(v@),
{
    let len = v.unicode_len();
    let mut i: usize = 0;
    proof {
        assert(v@.skip(0) =~= v@);
        assert(old(out)@ + spec_escape(v@) =~= old(out)@ + spec_escape(v@.skip(0)));
    }
    while i < len
        invariant
            i <= len,
            len == v@.len(),
            old(out)@ + spec_escape(v@) == out@ + spec_escape(v@.skip(i as int)),
        decreases len - i,
    {
        let c = v.get_char(i);
        proof {
            assert(v@.skip(i as int)[0] == c);
            assert(v@.skip(i as int).drop_first() =~= v@.skip(i + 1));
        }
        let ghost pre = out@;
        if c == '\\' {
            push_char(out, '\\');
            push_char(out, '\\');
        } else if c == '"' {
            push_char(out, '\\');
            push_char(out, '"');
        } else if c == '\n' {
            push_char(out, '\\');
            push_char(out, 'n');
        } else if c == '\r' {
            push_char(out, '\\');
            push_char(out, 'r');
        } else if c == '\t' {
            push_char(out, '\\');
            push_char(out, 't');
        } else {
            push_char(out, c);
        }
        proof {
            assert(out@ =~= pre + escape_char_seq(c));
            assert(pre + (escape_char_seq(c) + spec_escape(v@.skip(i + 1))) =~= (pre
                + escape_char_seq(c)) + spec_escape(v@.skip(i + 1)));
        }
        i += 1;
    }
    proof {
        assert(v@.skip(len as int) =~= Seq::<char>::empty());
        assert(out@ + spec_escape(v@.skip(len as int)) =~= out@);
    }
}

/// Appends one value, quoted and escaped when a plain scalar cannot carry
/// it.
fn push_value(out: &mut String, v: &str)
    ensures
        final (out)@ == old(out)@ + render_value(v@),
{
    let len = v.unicode_len();
    let ends_in_space = len > 0 && (is_space(v.get_char(0)) || is_space(v.get_char(len - 1)));
    if str_contains_char(v, '\n') || str_contains_char(v, '"') || ends_in_space {
        push_char(out, '"');
        let ghost mid = out@;
        push_escaped(out, v);
        push_char(out, '"');
        proof {
            assert(out@ =~= old(out)@ + (seq!['"'] + spec_escape(v@) + seq!['"']));
        }
    } else {
        out.append(v);
    }
}

/// Serializes a project definition to its manifest document.
pub fn emit_manifest(p: &ProjectFile) -> (r: String)
    ensures
        r@ == spec_manifest(p@),
{
    let mut out = "name: ".to_owned();
    push_value(&mut out, p.name.as_str());
    out.append("\n");
    out.append("source:");
    out.append("\n");
    out.append("  url: ");
    push_value(&mut out, p.source.url.as_str());
    out.append("\n");
    out.append("  branch: ");
    push_value(&mut out, p.source.branch.as_str());
    out.append("\n");
    out.append("  path: ");
    push_value(&mut out, p.source.path.as_str());
    out.append("\n");
    proof {
        assert(out@ =~= spec_manifest(p@));
    }
    out
}

/// Reads a quoted scalar's body back.
fn unescape_value(t: &str) -> (r: Option<String>)
    ensures
        match r {
            Some(s) => spec_unescape(t@) == Some(s@),
            None => spec_unescape(t@) is None,
        },
{
    let len = t.unicode_len();
    let mut out = String::new();
    let mut i: usize = 0;
    proof {
        assert(t@.skip(0) =~= t@);
    }
    while i < len
        invariant
            i <= len,
            len == t@.len(),
            match spec_unescape(t@.skip(i as int)) {
                Some(rest) => spec_unescape(t@) == Some(out@ + rest),
                None => spec_unescape(t@) is None,
            },
        decreases len - i,
    {
        let c = t.get_char(i);
        proof {
            assert(t@.skip(i as int)[0] == c);
            assert(t@.skip(i as int).len() == len - i);
        }
        if c == '\\' {
            if i + 1 == len {
                return None;
            }
            let e = t.get_char(i + 1);
            proof {
                assert(t@.skip(i as int)[1] == e);
                assert(t@.skip(i as int).skip(2) =~= t@.skip(i + 2));
            }
            let d: char = if e == '\\' {
                '\\'
            } else if e == '"' {
                '"'
            } else if e == 'n' {
                '\n'
            } else if e == 'r' {
                '\r'
            } else if e == 't' {
                '\t'
            } else {
                return None;
            };
            let ghost pre = out@;
            push_char(&mut out, d);
            proof {
                match spec_unescape(t@.skip(i + 2)) {
                    Some(rest) => {
                        assert(pre + (seq![d] + rest) =~= out@ + rest);
                    },
                    None => {},
                }
            }
            i += 2;
        } else {
            proof {
                assert(t@.skip(i as int).drop_first() =~= t@.skip(i + 1));
            }
            let ghost pre = out@;
            push_char(&mut out, c);
            proof {
                match spec_unescape(t@.skip(i + 1)) {
                    Some(rest) => {
                        assert(pre + (seq![c] + rest) =~= out@ + rest);
                    },
                    None => {},
                }
            }
            i += 1;
        }
    }
    proof {
        assert(t@.skip(len as int) =~= Seq::<char>::empty());
        assert(out@ + Seq::<char>::empty() =~= out@);
    }
    Some(out)
}

/// Decodes one trimmed field text.
fn decode_field(t: &str) -> (r: Option<String>)
    ensures
        match r {
            Some(s) => decode_value(t@) == Some(s@),
            None => decode_value(t@) is None,
        },
{
    let len = t.unicode_len();
    if len >= 2 && t.get_char(0) == '"' && t.get_char(len - 1) == '"' {
        let inner = t.substring_char(1, len - 1);
        proof {
            assert(inner@ =~= t@.subrange(1, t@.len() - 1));
        }
        unescape_value(inner)
    } else {
        Some(t.to_owned())
    }
}

/// The value of one `key: value` line, or `None` when the key is missing
/// or the value is malformed.
fn field_value(line: &str, prefix: &str) -> (r: Option<String>)
    ensures
        match r {
            Some(v) => spec_field(line@, prefix@) == Some(v@),
            None => spec_field(line@, prefix@) is None,
        },
{
    match strip_prefix_str(line, prefix) {
        Some(rest) => decode_field(trim(rest)),
        None => None,
    }
}

/// Parses a manifest document into a project definition. Only the
/// canonical grammar described at `spec_parse_manifest` is accepted.
pub fn parse_manifest(text: &str) -> (r: Option<ProjectFile>)
    ensures
        match r {
            Some(p) => spec_parse_manifest(text@) == Some(p@),
            None => spec_parse_manifest(text@) is None,
        },
{
    let mut lines = split_str(text, '\n');
    let ghost all = spec_split(text@, '\n');
    if lines.len() > 0 && str_eq(lines[0].as_str(), "---") {
        lines.remove(0);
        proof {
            assert(lines@.map_values(|p: String| p@) =~= all.drop_first());
        }
    }
    let ghost body = lines@.map_values(|p: String| p@);
    while lines.len() > 0 && is_blank(lines[lines.len() - 1].as_str())
        invariant
            drop_trailing_blanks(body) == drop_trailing_blanks(
                lines@.map_values(|p: String| p@),
            ),
        decreases lines.len(),
    {
        let ghost pre = lines@;
        proof {
            assert(pre.map_values(|p: String| p@).last() == pre.last()@);
        }
        lines.pop();
        proof {
            assert(lines@.map_values(|p: String| p@) =~= pre.map_values(
                |p: String| p@,
            ).drop_last());
        }
    }
    proof {
        if lines.len() > 0 {
            assert(lines@.map_values(|p: String| p@).last() == lines@.last()@);
        }
        assert(drop_trailing_blanks(body) == lines@.map_values(|p: String| p@));
    }
    if lines.len() != 5 {
        return None;
    }
    let name = match field_value(lines[0].as_str(), "name: ") {
        Some(v) => v,
        None => {
            return None;
        },
    };
    if !str_eq(lines[1].as_str(), "source:") {
        return None;
    }
    let url = match field_value(lines[2].as_str(), "  url: ") {
        Some(v) => v,
        None => {
            return None;
        },
    };
    let branch = match field_value(lines[3].as_str(), "  branch: ") {
        Some(v) => v,
        None => {
            return None;
        },
    };
    let path = match field_value(lines[4].as_str(), "  path: ") {
        Some(v) => v,
        None => {
            return None;
        },
    };
    Some(ProjectFile { name, source: GitSource { url, branch, path } })
}

/// Unescaping inverts escaping.
proof fn lemma_unescape_escape(v: Seq<char>)
    ensures
        spec_unescape(spec_escape(v)) == Some(v),
    decreases v.len(),
{
    if v.len() == 0 {
        assert(spec_escape(v) =~= Seq::<char>::empty());
        assert(spec_unescape(spec_escape(v)) == Some(Seq::<char>::empty()));
        assert(Seq::<char>::empty() =~= v);
    } else {
        let c = v[0];
        let rest = v.drop_first();
        lemma_unescape_escape(rest);
        let e = spec_escape(v);
        let tail = spec_escape(rest);
        if c == '\\' || c == '"' || c == '\n' || c == '\r' || c == '\t' {
            assert(escape_char_seq(c).len() == 2);
            assert(e[0] == '\\');
            assert(e.len() >= 2);
            assert(e[1] == escape_char_seq(c)[1]);
            assert(unescape_char(e[1]) == Some(c));
            assert(e.skip(2) =~= tail);
            assert(seq![c] + rest =~= v);
        } else {
            assert(e[0] == c);
            assert(c != '\\');
            assert(e.drop_first() =~= tail);
            assert(seq![c] + rest =~= v);
        }
    }
}

/// An escaped body carries no newline.
proof fn lemma_escape_no_newline(v: Seq<char>)
    ensures
        !spec_escape(v).contains('\n'),
    decreases v.len(),
{
    if v.len() > 0 {
        lemma_escape_no_newline(v.drop_first());
        let e = spec_escape(v);
        let head = escape_char_seq(v[0]);
        let tail = spec_escape(v.drop_first());
        assert forall|i: int| 0 <= i < e.len() implies e[i] != '\n' by {
            if i < head.len() {
                assert(e[i] == head[i]);
            } else {
                assert(e[i] == tail[i - head.len()]);
                assert(!tail.contains('\n'));
            }
        }
        if e.contains('\n') {
            let i = choose|i: int| 0 <= i < e.len() && e[i] == '\n';
        }
    }
}

/// A string whose ends are not whitespace is its own trim.
proof fn lemma_trim_stable(s: Seq<char>)
    requires
        s.len() > 0 ==> (!is_space_char(s[0]) && !is_space_char(s.last())),
    ensures
        spec_trim(s) == s,
{
    assert(crate::strings::spec_trim_start(s) == s);
    assert(crate::strings::spec_trim_end(s) == s);
}

/// A rendered value sits on one line, survives trimming, and decodes back
/// to itself.
proof fn lemma_render_value(v: Seq<char>)
    ensures
        !render_value(v).contains('\n'),
        spec_trim(render_value(v)) == render_value(v),
        decode_value(render_value(v)) == Some(v),
{
    let rv = render_value(v);
    if needs_quoting(v) {
        lemma_escape_no_newline(v);
        let e = spec_escape(v);
        assert(rv.len() == e.len() + 2);
        assert forall|i: int| 0 <= i < rv.len() implies rv[i] != '\n' by {
            if i == 0 || i == rv.len() - 1 {
                assert(rv[i] == '"');
            } else {
                assert(rv[i] == e[i - 1]);
                assert(!e.contains('\n'));
            }
        }
        if rv.contains('\n') {
            let i = choose|i: int| 0 <= i < rv.len() && rv[i] == '\n';
        }
        assert(rv[0] == '"' && rv.last() == '"');
        assert(!is_space_char('"'));
        lemma_trim_stable(rv);
        assert(rv.subrange(1, rv.len() - 1) =~= e);
        lemma_unescape_escape(v);
    } else {
        assert(!v.contains('\n'));
        lemma_trim_stable(v);
        if v.len() >= 2 && v[0] == '"' && v.last() == '"' {
            assert(v.contains('"'));
        }
    }
}

/// Round trip: parsing a document that `spec_manifest` produced yields
/// exactly the definition it was produced from, for every definition.
#[verifier::rlimit(60)]
pub proof fn lemma_manifest_round_trip(f: SpecProjectFile)
    ensures
        spec_parse_manifest(spec_manifest(f)) == Some(f),
{
    reveal_strlit("name: ");
    reveal_strlit("source:");
    reveal_strlit("  url: ");
    reveal_strlit("  branch: ");
    reveal_strlit("  path: ");
    reveal_strlit("\n");
    reveal_strlit("---");
    lemma_render_value(f.name);
    lemma_render_value(f.url);
    lemma_render_value(f.branch);
    lemma_render_value(f.path);
    let l0 = "name: "@ + render_value(f.name);
    let l1 = "source:"@;
    let l2 = "  url: "@ + render_value(f.url);
    let l3 = "  branch: "@ + render_value(f.branch);
    let l4 = "  path: "@ + render_value(f.path);
    let nl = seq!['\n'];
    let s = spec_manifest(f);
    assert(s =~= l0 + nl + (l1 + nl + (l2 + nl + (l3 + nl + (l4 + nl + Seq::<char>::empty())))));
    assert(!l0.contains('\n')) by {
        assert(forall|i: int| 0 <= i < l0.len() ==> l0[i] != '\n');
    }
    assert(!l1.contains('\n')) by {
        assert(forall|i: int| 0 <= i < l1.len() ==> l1[i] != '\n');
    }
    assert(!l2.contains('\n')) by {
        assert(forall|i: int| 0 <= i < l2.len() ==> l2[i] != '\n');
    }
    assert(!l3.contains('\n')) by {
        assert(forall|i: int| 0 <= i < l3.len() ==> l3[i] != '\n');
    }
    assert(!l4.contains('\n')) by {
        assert(forall|i: int| 0 <= i < l4.len() ==> l4[i] != '\n');
    }
    lemma_split_no_sep(l0, '\n');
    lemma_split_no_sep(l1, '\n');
    lemma_split_no_sep(l2, '\n');
    lemma_split_no_sep(l3, '\n');
    lemma_split_no_sep(l4, '\n');
    lemma_split_no_sep(Seq::<char>::empty(), '\n');
    lemma_split_concat(l4, Seq::<char>::empty(), '\n');
    lemma_split_concat(l3, l4 + nl + Seq::<char>::empty(), '\n');
    lemma_split_concat(l2, l3 + nl + (l4 + nl + Seq::<char>::empty()), '\n');
    lemma_split_concat(l1, l2 + nl + (l3 + nl + (l4 + nl + Seq::<char>::empty())), '\n');
    lemma_split_concat(l0, l1 + nl + (l2 + nl + (l3 + nl + (l4 + nl + Seq::<char>::empty()))), '\n');
    let all = spec_split(s, '\n');
    assert(all =~~= seq![l0, l1, l2, l3, l4, Seq::<char>::empty()]);
    assert(l0 != "---"@) by {
        assert(l0.len() >= 6);
        assert("---"@.len() == 3);
    }
    assert(spec_blank(Seq::<char>::empty()));
    assert(!spec_blank(l4)) by {
        assert(l4[2] == 'p');
        assert(!is_space_char('p'));
    }
    assert(all.drop_last() =~= seq![l0, l1, l2, l3, l4]);
    let five = seq![l0, l1, l2, l3, l4];
    assert(five.last() == l4);
    assert(drop_trailing_blanks(five) == five);
    assert(all.last() == Seq::<char>::empty());
    assert(drop_trailing_blanks(all) == drop_trailing_blanks(all.drop_last()));
    let lines = drop_trailing_blanks(all);
    assert(lines =~~= seq![l0, l1, l2, l3, l4]);
    assert(spec_field(l0, "name: "@) == Some(f.name)) by {
        assert(l0.take(6) =~= "name: "@);
        assert(l0.skip(6) =~= render_value(f.name));
    }
    assert(spec_field(l2, "  url: "@) == Some(f.url)) by {
        assert(l2.take(7) =~= "  url: "@);
        assert(l2.skip(7) =~= render_value(f.url));
    }
    assert(spec_field(l3, "  branch: "@) == Some(f.branch)) by {
        assert(l3.take(10) =~= "  branch: "@);
        assert(l3.skip(10) =~= render_value(f.branch));
    }
    assert(spec_field(l4, "  path: "@) == Some(f.path)) by {
        assert(l4.take(8) =~= "  path: "@);
        assert(l4.skip(8) =~= render_value(f.path));
    }
}

} // verus!
