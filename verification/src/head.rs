//! Reading a block construct's marker slices.
//!
//! A block construct's opening marker arrives as one token whose slice
//! holds the whole marker, `[[` through `]]`. Between the brackets stand,
//! in order: an optional special-form star, the construct name with an
//! optional modifier-form underscore suffix, and the head section: zero
//! or more `key=value` argument words separated by spaces, tabs or
//! newlines. A closing marker's slice runs `[[/` name `]]`.
//!
//! Everything here is defined twice: once as spec functions over
//! character sequences, which the reference parser and every contract
//! use, and once as executable functions proved equal to them.

use vstd::prelude::*;
use vstd::string::StrSliceExecFns;
use crate::tree::{Argument, ArgumentView};

verus! {

/// Separators inside a head: space, tab, carriage return or newline.
pub open spec fn is_head_break(c: char) -> bool {
    c == ' ' || c == '\t' || c == '\r' || c == '\n'
}

/// Index of the first separator at or after `i`, or the length if none.
pub open spec fn first_break_from(s: Seq<char>, i: int) -> int
    decreases s.len() - i when 0 <= i <= s.len()
{
    if i >= s.len() {
        s.len() as int
    } else if is_head_break(s[i]) {
        i
    } else {
        first_break_from(s, i + 1)
    }
}

/// The first separator position lies between `i` and the length, and
/// strictly after `i` when `s[i]` is no separator.
pub proof fn lemma_first_break_bounds(s: Seq<char>, i: int)
    requires
        0 <= i <= s.len(),
    ensures
        i <= first_break_from(s, i) <= s.len(),
        i < s.len() && !is_head_break(s[i]) ==> first_break_from(s, i) > i,
    decreases s.len() - i,
{
    if i < s.len() && !is_head_break(s[i]) {
        lemma_first_break_bounds(s, i + 1);
    }
}

/// Index of the first `=` at or after `i`, or the length if none.
pub open spec fn first_eq_from(s: Seq<char>, i: int) -> int
    decreases s.len() - i when 0 <= i <= s.len()
{
    if i >= s.len() {
        s.len() as int
    } else if s[i] == '=' {
        i
    } else {
        first_eq_from(s, i + 1)
    }
}

/// An opening marker's shape: `[[`, at least nothing, `]]`.
pub open spec fn spec_open_shape(s: Seq<char>) -> bool {
    &&& s.len() >= 4
    &&& s[0] == '['
    &&& s[1] == '['
    &&& s[2] != '/'
    &&& s[s.len() - 2] == ']'
    &&& s[s.len() - 1] == ']'
}

/// The characters between an opening marker's brackets.
pub open spec fn spec_open_inner(s: Seq<char>) -> Seq<char> {
    s.subrange(2, s.len() - 2)
}

/// Whether the special invocation form (`[[*name]]`) was used.
pub open spec fn spec_open_special(s: Seq<char>) -> bool {
    spec_open_inner(s).len() > 0 && spec_open_inner(s)[0] == '*'
}

/// The inner characters with any special-form star removed.
pub open spec fn spec_open_after_special(s: Seq<char>) -> Seq<char> {
    if spec_open_special(s) {
        spec_open_inner(s).subrange(1, spec_open_inner(s).len() as int)
    } else {
        spec_open_inner(s)
    }
}

/// The name as written, up to the first separator, modifier suffix kept.
pub open spec fn spec_open_raw_name(s: Seq<char>) -> Seq<char> {
    spec_open_after_special(s).subrange(0, first_break_from(spec_open_after_special(s), 0))
}

/// Whether the modifier invocation form (`[[name_]]`) was used.
pub open spec fn spec_open_modifier(s: Seq<char>) -> bool {
    spec_open_raw_name(s).len() > 0 && spec_open_raw_name(s)[spec_open_raw_name(s).len() - 1]
        == '_'
}

/// The construct name looked up in the registry: raw name without any
/// modifier-form underscore suffix.
pub open spec fn spec_open_name(s: Seq<char>) -> Seq<char> {
    if spec_open_modifier(s) {
        spec_open_raw_name(s).subrange(0, spec_open_raw_name(s).len() - 1)
    } else {
        spec_open_raw_name(s)
    }
}

/// The head section: everything after the name inside the brackets.
pub open spec fn spec_open_rest(s: Seq<char>) -> Seq<char> {
    spec_open_after_special(s).subrange(
        first_break_from(spec_open_after_special(s), 0),
        spec_open_after_special(s).len() as int,
    )
}

/// Whether the marker holds a newline anywhere between its brackets.
pub open spec fn spec_open_newline(s: Seq<char>) -> bool {
    spec_open_inner(s).contains('\n')
}

/// What argument parsing yields: the well-formed `key=value` pairs in
/// order, and how many words were malformed (no `=`, or an empty key).
pub ghost struct HeadArgsView {
    pub args: Seq<ArgumentView>,
    pub malformed: nat,
}

/// Arguments of the head section from position `i` on. A word is a
/// maximal separator-free run; it is well-formed when an `=` splits it
/// into a non-empty key and a (possibly empty) value.
pub open spec fn spec_parse_args(rest: Seq<char>, i: int) -> HeadArgsView
    decreases rest.len() - i when 0 <= i <= rest.len()
{
    if i >= rest.len() {
        HeadArgsView { args: Seq::empty(), malformed: 0 }
    } else if is_head_break(rest[i]) {
        spec_parse_args(rest, i + 1)
    } else {
        let j = first_break_from(rest, i);
        let word = rest.subrange(i, j);
        let tail = {
            proof {
                lemma_first_break_bounds(rest, i);
            }
            spec_parse_args(rest, j)
        };
        let k = first_eq_from(word, 0);
        if 0 < k < word.len() {
            HeadArgsView {
                args: seq![
                    ArgumentView {
                        name: word.subrange(0, k),
                        value: word.subrange(k + 1, word.len() as int),
                    },
                ] + tail.args,
                malformed: tail.malformed,
            }
        } else {
            HeadArgsView { args: tail.args, malformed: tail.malformed + 1 }
        }
    }
}

/// The arguments carried by an opening marker's head section.
pub open spec fn spec_open_args(s: Seq<char>) -> HeadArgsView {
    spec_parse_args(spec_open_rest(s), 0)
}

/// A closing marker's shape: `[[/`, a name, `]]`.
pub open spec fn spec_close_shape(s: Seq<char>) -> bool {
    &&& s.len() >= 5
    &&& s[0] == '['
    &&& s[1] == '['
    &&& s[2] == '/'
    &&& s[s.len() - 2] == ']'
    &&& s[s.len() - 1] == ']'
}

/// The characters between a closing marker's `[[/` and `]]`.
pub open spec fn spec_close_inner(s: Seq<char>) -> Seq<char> {
    s.subrange(3, s.len() - 2)
}

/// The name a closing marker closes: its inner text up to the first
/// separator.
pub open spec fn spec_close_name(s: Seq<char>) -> Seq<char> {
    spec_close_inner(s).subrange(0, first_break_from(spec_close_inner(s), 0))
}

/// Whether `c` separates words inside a head.
pub fn is_break_char(c: char) -> (r: bool)
    ensures
        r == is_head_break(c),
{
    c == ' ' || c == '\t' || c == '\r' || c == '\n'
}

/// Finds the first separator at or after `i`.
pub fn first_break_exec(s: &str, i: usize) -> (j: usize)
    requires
        i <= s@.len(),
    ensures
        j as int == first_break_from(s@, i as int),
        i <= j <= s@.len(),
{
    let len = s.unicode_len();
    let mut j = i;
    while j < len
        invariant
            i <= j <= len,
            len == s@.len(),
            first_break_from(s@, i as int) == first_break_from(s@, j as int),
        decreases len - j,
    {
        if is_break_char(s.get_char(j)) {
            return j;
        }
        j = j + 1;
    }
    j
}

/// Finds the first `=` at or after `i`.
pub fn first_eq_exec(s: &str, i: usize) -> (j: usize)
    requires
        i <= s@.len(),
    ensures
        j as int == first_eq_from(s@, i as int),
        i <= j <= s@.len(),
{
    let len = s.unicode_len();
    let mut j = i;
    while j < len
        invariant
            i <= j <= len,
            len == s@.len(),
            first_eq_from(s@, i as int) == first_eq_from(s@, j as int),
        decreases len - j,
    {
        if s.get_char(j) == '=' {
            return j;
        }
        j = j + 1;
    }
    j
}

/// Whether the string holds a newline anywhere.
pub fn contains_newline(s: &str) -> (r: bool)
    ensures
        r == s@.contains('\n'),
{
    let len = s.unicode_len();
    let mut j: usize = 0;
    while j < len
        invariant
            j <= len,
            len == s@.len(),
            forall|k: int| 0 <= k < j ==> s@[k] != '\n',
        decreases len - j,
    {
        if s.get_char(j) == '\n' {
            assert(s@.contains('\n')) by {
                assert(s@[j as int] == '\n');
            }
            return true;
        }
        j = j + 1;
    }
    false
}

/// Parses the head section into arguments, counting malformed words.
pub fn parse_args_exec(rest: &str) -> (r: (Vec<Argument>, usize))
    ensures
        r.0@.map(|i: int, a: Argument| a@) == spec_parse_args(rest@, 0).args,
        r.1 as nat == spec_parse_args(rest@, 0).malformed,
{
    let len = rest.unicode_len();
    let mut arguments: Vec<Argument> = Vec::new();
    let mut malformed: usize = 0;
    let mut i: usize = 0;
    proof {
        assert(arguments@.map(|n: int, a: Argument| a@) =~= Seq::<ArgumentView>::empty());
    }
    while i < len
        invariant
            i <= len,
            len == rest@.len(),
            malformed as int <= i,
            spec_parse_args(rest@, 0).args == arguments@.map(|n: int, a: Argument| a@)
                + spec_parse_args(rest@, i as int).args,
            spec_parse_args(rest@, 0).malformed == malformed + spec_parse_args(
                rest@,
                i as int,
            ).malformed,
        decreases len - i,
    {
        let ghost prev_args = arguments@.map(|n: int, a: Argument| a@);
        if is_break_char(rest.get_char(i)) {
            i = i + 1;
        } else {
            let j = first_break_exec(rest, i);
            proof {
                lemma_first_break_bounds(rest@, i as int);
            }
            let word = rest.substring_char(i, j);
            let wlen = word.unicode_len();
            let k = first_eq_exec(word, 0);
            if 0 < k && k < wlen {
                let name = word.substring_char(0, k).to_owned();
                let value = word.substring_char(k + 1, wlen).to_owned();
                let arg = Argument { name, value };
                let ghost argv = arg@;
                arguments.push(arg);
                proof {
                    assert(arguments@.map(|n: int, a: Argument| a@) =~= prev_args.push(argv));
                    assert(prev_args.push(argv) + spec_parse_args(rest@, j as int).args
                        =~= prev_args + (seq![argv] + spec_parse_args(rest@, j as int).args));
                }
            } else {
                malformed = malformed + 1;
            }
            i = j;
        }
    }
    (arguments, malformed)
}

/// What the engine learns from one opening marker: the invocation forms
/// used, the name, the head arguments and whether a newline stood inside.
pub struct OpenExam {
    pub name: String,
    pub special: bool,
    pub modifier: bool,
    pub newline: bool,
    pub arguments: Vec<Argument>,
    pub malformed: usize,
}

/// Reads an opening marker's slice. Returns `None` exactly when the slice
/// is not shaped `[[` ... `]]`, in which case no block rule can match it.
pub fn examine_open(slice: &str) -> (r: Option<OpenExam>)
    ensures
        r is Some <==> spec_open_shape(slice@),
        r matches Some(e) ==> {
            &&& e.name@ == spec_open_name(slice@)
            &&& e.special == spec_open_special(slice@)
            &&& e.modifier == spec_open_modifier(slice@)
            &&& e.newline == spec_open_newline(slice@)
            &&& e.arguments@.map(|i: int, a: Argument| a@) == spec_open_args(slice@).args
            &&& e.malformed as nat == spec_open_args(slice@).malformed
        },
{
    let len = slice.unicode_len();
    if len < 4 {
        return None;
    }
    if slice.get_char(0) != '[' || slice.get_char(1) != '[' || slice.get_char(2) == '/'
        || slice.get_char(len - 2) != ']' || slice.get_char(len - 1) != ']' {
        return None;
    }
    let inner = slice.substring_char(2, len - 2);
    let ilen = inner.unicode_len();
    let special = ilen > 0 && inner.get_char(0) == '*';
    let body = if special {
        inner.substring_char(1, ilen)
    } else {
        inner.substring_char(0, ilen)
    };
    proof {
        assert(body@ =~= spec_open_after_special(slice@));
    }
    let blen = body.unicode_len();
    let nb = first_break_exec(body, 0);
    let raw = body.substring_char(0, nb);
    let rlen = raw.unicode_len();
    let modifier = rlen > 0 && raw.get_char(rlen - 1) == '_';
    let name = if modifier {
        raw.substring_char(0, rlen - 1)
    } else {
        raw.substring_char(0, rlen)
    };
    proof {
        assert(name@ =~= spec_open_name(slice@));
    }
    let rest = body.substring_char(nb, blen);
    proof {
        assert(rest@ =~= spec_open_rest(slice@));
    }
    let newline = contains_newline(inner);
    let (arguments, malformed) = parse_args_exec(rest);
    Some(
        OpenExam {
            name: name.to_owned(),
            special,
            modifier,
            newline,
            arguments,
            malformed,
        },
    )
}

/// Reads a closing marker's slice. Returns the closed name, or `None`
/// exactly when the slice is not shaped `[[/` ... `]]`.
pub fn examine_close(slice: &str) -> (r: Option<String>)
    ensures
        r is Some <==> spec_close_shape(slice@),
        r matches Some(n) ==> n@ == spec_close_name(slice@),
{
    let len = slice.unicode_len();
    if len < 5 {
        return None;
    }
    if slice.get_char(0) != '[' || slice.get_char(1) != '[' || slice.get_char(2) != '/'
        || slice.get_char(len - 2) != ']' || slice.get_char(len - 1) != ']' {
        return None;
    }
    let inner = slice.substring_char(3, len - 2);
    let nb = first_break_exec(inner, 0);
    let name = inner.substring_char(0, nb);
    proof {
        assert(name@ =~= spec_close_name(slice@));
    }
    Some(name.to_owned())
}

} // verus!
