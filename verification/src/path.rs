//! Paths and other text of the host, held as the host holds them: as UTF-16
//! code units, whether or not they are well formed. Nothing is lost between
//! what the host hands out and what the library hands back.

use vstd::prelude::*;
use vstd::string::*;

verus! {

/// The code units that write `c` in UTF-16: the character itself in the
/// basic plane, a pair of surrogates above it.
pub open spec fn utf16_units(c: char) -> Seq<u16> {
    let u = c as u32;
    if u < 0x10000 {
        seq![u as u16]
    } else {
        seq![(0xD800 + (u - 0x10000) / 0x400) as u16, (0xDC00 + (u - 0x10000) % 0x400) as u16]
    }
}

/// The code units that write `s` in UTF-16.
pub open spec fn utf16(s: Seq<char>) -> Seq<u16>
    decreases s.len(),
{
    if s.len() == 0 {
        Seq::empty()
    } else {
        utf16(s.drop_last()) + utf16_units(s.last())
    }
}

/// Writes `text` in UTF-16.
pub fn encode_wide(text: &str) -> (wide: Vec<u16>)
    ensures
        wide@ == utf16(text@),
{
    let len: usize = text.unicode_len();
    let mut wide: Vec<u16> = Vec::new();
    let mut i: usize = 0;
    assert(text@.take(0) == Seq::<char>::empty());
    while i < len
        invariant
            len == text@.len(),
            i <= len,
            wide@ == utf16(text@.take(i as int)),
        decreases len - i,
    {
        let c = text.get_char(i);
        let u: u32 = c as u32;
        proof {
            assert(text@.take(i as int + 1).drop_last() == text@.take(i as int));
            assert(text@.take(i as int + 1).last() == c);
        }
        let ghost before = wide@;
        if u < 0x10000 {
            wide.push(u as u16);
            assert(wide@ == before + utf16_units(c));
        } else {
            assert(u <= 0x10FFFF);
            let above: u32 = u - 0x10000;
            wide.push((0xD800 + above / 0x400) as u16);
            wide.push((0xDC00 + above % 0x400) as u16);
            assert(wide@ == before + utf16_units(c));
        }
        i += 1;
    }
    assert(text@.take(len as int) == text@);
    wide
}

/// The code units of a character tell the character: there is one unit
/// outside the surrogates or a high surrogate followed by a low one, and
/// another character has other units.
pub proof fn lemma_utf16_units(c: char, d: char)
    ensures
        utf16_units(c).len() == 1 || utf16_units(c).len() == 2,
        utf16_units(c).len() == 2 <==> (0xDC00 <= utf16_units(c).last() <= 0xDFFF),
        utf16_units(c) == utf16_units(d) ==> c == d,
{
    let u = c as u32;
    let v = d as u32;
    assert(u <= 0xD7FF || 0xE000 <= u <= 0x10FFFF);
    assert(v <= 0xD7FF || 0xE000 <= v <= 0x10FFFF);
    if utf16_units(c) == utf16_units(d) {
        if u < 0x10000 {
            assert(utf16_units(c)[0] == u);
            assert(v < 0x10000);
            assert(utf16_units(d)[0] == v);
        } else {
            let x = (u - 0x10000) as int;
            let y = (v - 0x10000) as int;
            assert(utf16_units(c)[0] == 0xD800 + x / 0x400);
            assert(utf16_units(c)[1] == 0xDC00 + x % 0x400);
            assert(v >= 0x10000);
            assert(utf16_units(d)[0] == 0xD800 + y / 0x400);
            assert(utf16_units(d)[1] == 0xDC00 + y % 0x400);
            assert(x == y);
        }
        assert(u == v);
    }
}

/// Two texts with the same UTF-16 form are the same text.
pub proof fn law_utf16_is_injective(a: Seq<char>, b: Seq<char>)
    requires
        utf16(a) == utf16(b),
    ensures
        a == b,
    decreases a.len(),
{
    if a.len() == 0 || b.len() == 0 {
        if a.len() > 0 {
            assert(utf16(a).len() >= utf16_units(a.last()).len());
        }
        if b.len() > 0 {
            assert(utf16(b).len() >= utf16_units(b.last()).len());
        }
        assert(a == b);
    } else {
        let ua = utf16_units(a.last());
        let ub = utf16_units(b.last());
        let pa = utf16(a.drop_last());
        let pb = utf16(b.drop_last());
        let whole = utf16(a);
        assert(whole == pa + ua);
        assert(whole == pb + ub);
        assert(whole.last() == ua.last());
        assert(whole.last() == ub.last());
        lemma_utf16_units(a.last(), b.last());
        lemma_utf16_units(b.last(), a.last());
        assert(ua.len() == ub.len());
        assert(pa == whole.take(whole.len() - ua.len()));
        assert(pb == whole.take(whole.len() - ub.len()));
        assert(ua == whole.skip(whole.len() - ua.len()));
        assert(ub == whole.skip(whole.len() - ub.len()));
        assert(ua == ub);
        assert(a.last() == b.last());
        law_utf16_is_injective(a.drop_last(), b.drop_last());
        assert(a == a.drop_last().push(a.last()));
        assert(b == b.drop_last().push(b.last()));
    }
}

/// The text that `units` write in UTF-16, and none where they write no
/// text, as with a surrogate that has no partner.
pub open spec fn text_of(units: Seq<u16>) -> Option<Seq<char>> {
    if exists|s: Seq<char>| utf16(s) == units {
        Some(choose|s: Seq<char>| utf16(s) == units)
    } else {
        None
    }
}

/// The text that `units` write in UTF-16, by `String::from_utf16` of the
/// standard library: a text whose UTF-16 form is `units`, and none where no
/// text has that form.
#[verifier::external_body]
fn text_of_wide(units: &Vec<u16>) -> (text: Option<String>)
    ensures
        match text {
            Some(text) => utf16(text@) == units@,
            None => forall|s: Seq<char>| utf16(s) != units@,
        },
{
    String::from_utf16(units.as_slice()).ok()
}

/// The code unit of the backslash, which the library writes between two
/// parts of a path.
pub const BACKSLASH: u16 = 0x5C;

/// The code unit of the slash, which the host takes for a separator too.
pub const SLASH: u16 = 0x2F;

/// Whether the code unit ends a path component on Windows.
pub open spec fn is_separator(unit: u16) -> bool {
    unit == BACKSLASH || unit == SLASH
}

/// The code unit of the dot. A component that is one dot stands for the
/// directory it lies in, and one that is two dots for the directory above.
pub const DOT: u16 = 0x2E;

/// The path without what the host passes over at its end: separators, and
/// components that are one dot.
pub open spec fn without_trailing(path: Seq<u16>) -> Seq<u16>
    decreases path.len(),
{
    if path.len() > 0 && is_separator(path.last()) {
        without_trailing(path.drop_last())
    } else if path.len() >= 2 && path.last() == DOT && is_separator(path[path.len() - 2]) {
        without_trailing(path.take(path.len() - 2))
    } else {
        path
    }
}

/// Where the last component of `path` begins: behind its last separator, or
/// at its beginning where it has none.
pub open spec fn component_start(path: Seq<u16>) -> int
    decreases path.len(),
{
    if path.len() == 0 || is_separator(path.last()) {
        path.len() as int
    } else {
        component_start(path.drop_last())
    }
}

/// The final component of `path`: the name of the file or directory that
/// the path leads to. Separators and one-dot components at the end of the
/// path are passed over; the component is what then follows the last
/// separator. There is none where nothing is left, and none where the path
/// ends in the directory above, `..`, or is the one dot alone.
///
/// A drive or another prefix of the host at the head of the path is not
/// told apart from a name: `C:` is a component here, and so is the server
/// of a network path.
pub open spec fn final_component(path: Seq<u16>) -> Option<Seq<u16>> {
    let kept = without_trailing(path);
    let name = kept.skip(component_start(kept));
    if name.len() == 0 || name == seq![DOT] || name == seq![DOT, DOT] {
        None
    } else {
        Some(name)
    }
}

/// The final component of `path` as text: none where the path has no final
/// component, and none where that component is no text in UTF-16, whatever
/// the components before it hold.
pub open spec fn final_name(path: Seq<u16>) -> Option<Seq<char>> {
    match final_component(path) {
        Some(name) => text_of(name),
        None => None,
    }
}

/// Reading the UTF-16 form of a text gives the text back.
pub proof fn law_text_of_utf16(text: Seq<char>)
    ensures
        text_of(utf16(text)) == Some(text),
{
    let units = utf16(text);
    assert(utf16(text) == units);
    law_utf16_is_injective(text_of(units)->0, text);
}

/// The text `rel` appended to `base` as a further path component: a
/// backslash goes between them unless `base` is empty or already ends in a
/// separator, and `rel` follows in UTF-16. The units of `base` stay as they
/// are.
///
/// This is all of the host's own rule for joining paths that the library
/// needs, not the whole of it. The host's rule lets a part that begins with
/// a separator or a drive take the place of `base`, and writes no separator
/// behind a bare drive such as `C:`. Here such a part is appended like any
/// other, and a bare drive is followed by a backslash. The parts that the
/// library appends are fixed relative paths; the one part that the host
/// supplies freely is the tools version that an installation records.
pub open spec fn joined(base: Seq<u16>, rel: Seq<char>) -> Seq<u16> {
    if base.len() == 0 || is_separator(base.last()) {
        base + utf16(rel)
    } else {
        base.push(BACKSLASH) + utf16(rel)
    }
}

/// A path, or another text, of the host.
#[derive(Clone, Debug, PartialEq, Eq, Hash)]
pub struct HostPath {
    /// The UTF-16 code units of the path, without a zero at their end. They
    /// need not be well formed: the host takes any units for a name.
    pub units: Vec<u16>,
}

impl View for HostPath {
    type V = Seq<u16>;

    open spec fn view(&self) -> Seq<u16> {
        self.units@
    }
}

impl DeepView for HostPath {
    type V = Seq<u16>;

    open spec fn deep_view(&self) -> Seq<u16> {
        self@
    }
}

/// Whether `name` can be the name of a file or directory: it holds a unit,
/// none of its units is a separator, and it is neither the one dot nor the
/// two dots.
pub open spec fn is_name(name: Seq<u16>) -> bool {
    &&& name.len() > 0
    &&& forall|i: int| 0 <= i < name.len() ==> !is_separator(#[trigger] name[i])
    &&& name != seq![DOT]
    &&& name != seq![DOT, DOT]
}

/// Behind a head that is empty or ends in a separator, units without a
/// separator are one component.
pub proof fn lemma_component_start(head: Seq<u16>, tail: Seq<u16>)
    requires
        head.len() == 0 || is_separator(head.last()),
        forall|i: int| 0 <= i < tail.len() ==> !is_separator(#[trigger] tail[i]),
    ensures
        component_start(head + tail) == head.len(),
    decreases tail.len(),
{
    if tail.len() == 0 {
        assert(head + tail == head);
    } else {
        assert((head + tail).last() == tail.last());
        assert((head + tail).drop_last() == head + tail.drop_last());
        lemma_component_start(head, tail.drop_last());
    }
}

/// A name that is appended to a path is the final component of the path
/// that results, whatever the path before it holds.
pub proof fn law_final_component_of_joined(base: Seq<u16>, name: Seq<char>)
    requires
        is_name(utf16(name)),
    ensures
        final_component(joined(base, name)) == Some(utf16(name)),
        final_name(joined(base, name)) == Some(name),
{
    let units = utf16(name);
    let head = if base.len() == 0 || is_separator(base.last()) {
        base
    } else {
        base.push(BACKSLASH)
    };
    let whole = joined(base, name);
    assert(whole == head + units);
    assert(whole.last() == units.last());
    if units.len() == 1 {
        assert(units =~= seq![units[0]]);
    } else {
        assert(whole[whole.len() - 2] == units[units.len() - 2]);
    }
    assert(without_trailing(whole) == whole);
    lemma_component_start(head, units);
    assert(whole.skip(head.len() as int) == units);
    law_text_of_utf16(name);
}

impl HostPath {
    /// The path that `text` writes.
    pub fn from_text(text: &str) -> (path: HostPath)
        ensures
            path@ == utf16(text@),
    {
        HostPath { units: encode_wide(text) }
    }

    /// The path once more.
    pub fn duplicate(&self) -> (path: HostPath)
        ensures
            path@ == self@,
    {
        let mut units: Vec<u16> = Vec::new();
        let mut i: usize = 0;
        while i < self.units.len()
            invariant
                i <= self.units.len(),
                units@ == self.units@.take(i as int),
            decreases self.units.len() - i,
        {
            units.push(self.units[i]);
            assert(self.units@.take(i as int + 1) == self.units@.take(i as int).push(
                self.units@[i as int],
            ));
            i += 1;
        }
        assert(self.units@.take(self.units.len() as int) == self.units@);
        HostPath { units }
    }

    /// Appends the text `rel` to the path as a further component.
    pub fn join(&self, rel: &str) -> (path: HostPath)
        ensures
            path@ == joined(self@, rel@),
    {
        let mut path = self.duplicate();
        let len: usize = path.units.len();
        if len > 0 {
            let last: u16 = path.units[len - 1];
            if last != BACKSLASH && last != SLASH {
                path.units.push(BACKSLASH);
            }
        }
        let mut rel_units = encode_wide(rel);
        path.units.append(&mut rel_units);
        path
    }

    /// The final component of the path.
    pub fn final_component(&self) -> (name: Option<HostPath>)
        ensures
            name.deep_view() == final_component(self@),
    {
        let mut end: usize = self.units.len();
        assert(self@.take(end as int) == self@);
        loop
            invariant
                end <= self.units.len(),
                without_trailing(self@) == without_trailing(self@.take(end as int)),
            ensures
                end <= self.units.len(),
                without_trailing(self@) == self@.take(end as int),
            decreases end,
        {
            let ghost kept = self@.take(end as int);
            if end > 0 && (self.units[end - 1] == BACKSLASH || self.units[end - 1] == SLASH) {
                assert(kept.drop_last() == self@.take(end as int - 1));
                end -= 1;
            } else if end >= 2 && self.units[end - 1] == DOT && (self.units[end - 2] == BACKSLASH
                || self.units[end - 2] == SLASH) {
                assert(kept.take(kept.len() - 2) == self@.take(end as int - 2));
                end -= 2;
            } else {
                break ;
            }
        }
        let ghost kept = self@.take(end as int);
        let mut start: usize = end;
        assert(kept.take(start as int) == kept);
        while start > 0 && self.units[start - 1] != BACKSLASH && self.units[start - 1] != SLASH
            invariant
                start <= end <= self.units.len(),
                kept == self@.take(end as int),
                component_start(kept) == component_start(kept.take(start as int)),
            decreases start,
        {
            assert(kept.take(start as int).drop_last() == kept.take(start as int - 1));
            start -= 1;
        }
        assert(component_start(kept) == start);
        let mut units: Vec<u16> = Vec::new();
        let mut i: usize = start;
        while i < end
            invariant
                start <= i <= end <= self.units.len(),
                kept == self@.take(end as int),
                units@ == kept.subrange(start as int, i as int),
            decreases end - i,
        {
            units.push(self.units[i]);
            assert(kept.subrange(start as int, i as int + 1) == kept.subrange(
                start as int,
                i as int,
            ).push(kept[i as int]));
            i += 1;
        }
        assert(units@ == kept.skip(start as int));
        assert(kept == without_trailing(self@));
        assert(seq![DOT].len() == 1 && seq![DOT][0] == DOT);
        assert(seq![DOT, DOT].len() == 2 && seq![DOT, DOT][0] == DOT && seq![DOT, DOT][1] == DOT);
        proof {
            if units@.len() == 1 && units@[0] == DOT {
                assert(units@ =~= seq![DOT]);
            }
            if units@.len() == 2 && units@[0] == DOT && units@[1] == DOT {
                assert(units@ =~= seq![DOT, DOT]);
            }
        }
        let len: usize = units.len();
        if len == 0 || (len == 1 && units[0] == DOT) || (len == 2 && units[0] == DOT && units[1]
            == DOT) {
            None
        } else {
            Some(HostPath { units })
        }
    }

    /// The final component of the path as text.
    pub fn file_name(&self) -> (name: Option<String>)
        ensures
            name.deep_view() == final_name(self@),
    {
        match self.final_component() {
            Some(name) => name.to_text(),
            None => None,
        }
    }

    /// The text of the path, where its units are well formed.
    pub fn to_text(&self) -> (text: Option<String>)
        ensures
            text.deep_view() == text_of(self@),
    {
        let text = text_of_wide(&self.units);
        proof {
            if text is Some {
                law_utf16_is_injective(text->0@, text_of(self@)->0);
            }
        }
        text
    }
}

} // verus!
