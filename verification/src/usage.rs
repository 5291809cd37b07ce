//! Usage lines: a visitor that records the structure of a parser (items and the
//! groups around them) as a flat list of events, and renders it as text.
use crate::attrs::{join, join_exec};
use crate::grammar::texts_view;
use crate::tokens::{copy_text, push_char, push_text};
use vstd::prelude::*;

verus! {

/// Contains name for named
#[derive(Copy, Clone, Debug)]
pub enum ShortLong {
    /// Short name only (one char),
    /// Ex `-v` is stored as Short('v'),
    Short(char),
    /// Long name only, could be one char
    Long(&'static str),
    Both(char, &'static str),
}

/// How a name is written in a usage line: `-c` for a short name (also when both
/// are given), `--name` for a long one.
pub open spec fn short_long_text(n: ShortLong) -> Seq<char> {
    match n {
        ShortLong::Short(s) => seq!['-', s],
        ShortLong::Both(s, _) => seq!['-', s],
        ShortLong::Long(l) => seq!['-', '-'] + l@,
    }
}

impl ShortLong {
    /// The short name alone where there is one; a long name is kept.
    pub fn as_short(&self) -> (r: Self)
        ensures
            r == (match *self {
                ShortLong::Short(s) => ShortLong::Short(s),
                ShortLong::Both(s, _) => ShortLong::Short(s),
                ShortLong::Long(l) => ShortLong::Long(l),
            }),
    {
        match self {
            ShortLong::Short(s) | ShortLong::Both(s, _) => ShortLong::Short(*s),
            ShortLong::Long(_) => *self,
        }
    }

    /// The name as written on the command line.
    pub fn to_text(&self) -> (r: String)
        ensures
            r@ == short_long_text(*self),
    {
        let mut r = String::new();
        match self {
            ShortLong::Short(s) | ShortLong::Both(s, _) => {
                push_char(&mut r, '-');
                push_char(&mut r, *s);
            },
            ShortLong::Long(l) => {
                push_char(&mut r, '-');
                push_char(&mut r, '-');
                push_text(&mut r, l);
            },
        }
        assert(r@ =~= short_long_text(*self));
        r
    }
}

#[derive(Debug)]
pub enum Item {
    Flag(ShortLong),
    Argument(ShortLong, &'static str),
    Positional(&'static str),
}

pub enum Decor {
    // inner parser can succeed multiple times, requred unless made optional
    Many,
    // inner parser can succeed with no input
    Optional,
    // product group, all members must succeed
    And,
    // sum group, exactly one member must succeed
    Or,
}

#[derive(Debug, Copy, Clone)]
pub enum Group {
    And { len: usize },
    Or { len: usize },
    Optional { len: usize },
    Many { len: usize },
}

impl Group {
    /// How many events follow the group's start and belong to it.
    pub open spec fn spec_len(self) -> nat {
        match self {
            Group::And { len } => len as nat,
            Group::Or { len } => len as nat,
            Group::Optional { len } => len as nat,
            Group::Many { len } => len as nat,
        }
    }

    pub fn len(self) -> (r: usize)
        ensures
            r == self.spec_len(),
    {
        match self {
            Group::And { len } | Group::Or { len } | Group::Optional { len } | Group::Many {
                len,
            } => len,
        }
    }

    /// The same kind of group with another length.
    pub open spec fn with_len(self, n: usize) -> Group {
        match self {
            Group::And { .. } => Group::And { len: n },
            Group::Or { .. } => Group::Or { len: n },
            Group::Optional { .. } => Group::Optional { len: n },
            Group::Many { .. } => Group::Many { len: n },
        }
    }
}

#[derive(Debug, Copy, Clone)]
pub enum Atom<'a> {
    Item(&'a Item),
    Command,
    Strict,
    Text(&'a str),
}

#[derive(Debug, Copy, Clone)]
pub enum Event<'a> {
    Atom(Atom<'a>),
    Group(Group),
    /// Marker for removed items, can be safely
    Skip,
}

/// The first group at or after `from` and before `to`, with its position.
pub open spec fn first_group_in<'a>(ev: Seq<Event<'a>>, from: int, to: int) -> Option<(int, Group)>
    decreases to - from,
{
    if from >= to || from < 0 || to > ev.len() {
        Option::None
    } else {
        match ev[from] {
            Event::Group(g) => Option::Some((from, g)),
            _ => first_group_in(ev, from + 1, to),
        }
    }
}

/// The events with the starts of groups that hold no events marked as skipped, as
/// the scan from `from` to `to` finds them: it goes from one group to the next,
/// looks into each group's events first, and resumes after the group's last event.
pub open spec fn normalized<'a>(ev: Seq<Event<'a>>, from: int, to: int) -> Seq<Event<'a>>
    decreases to - from, 0int,
{
    match first_group_in(ev, from, to) {
        Option::None => ev,
        Option::Some((ix, g)) => {
            let first = ix + 1;
            let last = if first + g.spec_len() <= to {
                first + g.spec_len()
            } else {
                to
            };
            if from <= ix < to {
                let ev1 = normalized(ev, first, last);
                let ev2 = if last == first {
                    ev1.update(ix, Event::Skip)
                } else {
                    ev1
                };
                normalized(ev2, last, to)
            } else {
                ev
            }
        },
    }
}

proof fn lemma_first_group_in<'a>(ev: Seq<Event<'a>>, from: int, to: int)
    ensures
        match first_group_in(ev, from, to) {
            Option::Some((ix, g)) => from <= ix < to && ev[ix] == Event::Group(g),
            Option::None => true,
        },
    decreases to - from,
{
    if !(from >= to || from < 0 || to > ev.len()) {
        if !(ev[from] is Group) {
            lemma_first_group_in(ev, from + 1, to);
        }
    }
}

proof fn lemma_normalized_len<'a>(ev: Seq<Event<'a>>, from: int, to: int)
    ensures
        normalized(ev, from, to).len() == ev.len(),
    decreases to - from, 0int,
{
    match first_group_in(ev, from, to) {
        Option::None => {},
        Option::Some((ix, g)) => {
            let first = ix + 1;
            let last = if first + g.spec_len() <= to {
                first + g.spec_len()
            } else {
                to
            };
            if from <= ix < to {
                lemma_normalized_len(ev, first, last);
                let ev1 = normalized(ev, first, last);
                let ev2 = if last == first {
                    ev1.update(ix, Event::Skip)
                } else {
                    ev1
                };
                lemma_normalized_len(ev2, last, to);
            }
        },
    }
}

/// What normalizing `from..to` of `ev` into `r` keeps and changes: the length, every
/// event outside the range and every event in it that does not start a group; a group
/// that holds no events becomes a skip marker, and any other group stays or becomes
/// one.
pub open spec fn normalizes<'a>(ev: Seq<Event<'a>>, r: Seq<Event<'a>>, from: int, to: int) -> bool {
    &&& r.len() == ev.len()
    &&& forall|p: int| 0 <= p < ev.len() && (p < from || p >= to) ==> #[trigger] r[p] == ev[p]
    &&& forall|p: int| from <= p < to && !(ev[p] is Group) ==> #[trigger] r[p] == ev[p]
    &&& forall|p: int|
        from <= p < to && ev[p] is Group ==> (#[trigger] r[p] == ev[p] || r[p] == Event::<'a>::Skip)
    &&& forall|p: int| from <= p < to && is_empty_group(ev[p]) ==> #[trigger] r[p] == Event::<'a>::Skip
}

/// Whether an event starts a group that holds no events.
pub open spec fn is_empty_group<'a>(e: Event<'a>) -> bool {
    match e {
        Event::Group(g) => g.spec_len() == 0,
        _ => false,
    }
}

proof fn lemma_first_group_before<'a>(ev: Seq<Event<'a>>, from: int, to: int)
    requires
        0 <= from <= to <= ev.len(),
    ensures
        match first_group_in(ev, from, to) {
            Option::Some((ix, g)) => forall|p: int| from <= p < ix ==> !(#[trigger] ev[p] is Group),
            Option::None => forall|p: int| from <= p < to ==> !(#[trigger] ev[p] is Group),
        },
    decreases to - from,
{
    if from < to && !(ev[from] is Group) {
        lemma_first_group_before(ev, from + 1, to);
    }
}

/// Normalizing marks every group that holds no events as skipped and changes nothing
/// but the starts of groups.
pub proof fn normalized_marks_empty_groups<'a>(ev: Seq<Event<'a>>, from: int, to: int)
    requires
        0 <= from <= to <= ev.len(),
    ensures
        normalizes(ev, normalized(ev, from, to), from, to),
    decreases to - from,
{
    lemma_first_group_in(ev, from, to);
    lemma_first_group_before(ev, from, to);
    match first_group_in(ev, from, to) {
        Option::None => {},
        Option::Some((ix, g)) => {
            let first = ix + 1;
            let last = if first + g.spec_len() <= to {
                first + g.spec_len()
            } else {
                to
            };
            normalized_marks_empty_groups(ev, first, last);
            let ev1 = normalized(ev, first, last);
            let ev2 = if last == first {
                ev1.update(ix, Event::Skip)
            } else {
                ev1
            };
            normalized_marks_empty_groups(ev2, last, to);
            let r = normalized(ev2, last, to);
            assert(r == normalized(ev, from, to));
            assert forall|p: int| 0 <= p < ev2.len() && p != ix && (p < first || p >= last) implies #[trigger] ev2[p]
                == ev[p] by {
                assert(ev1[p] == ev[p]);
            }
            assert(ev2[ix] == ev[ix] || ev2[ix] == Event::<'a>::Skip);
            assert(g.spec_len() == 0 ==> ev2[ix] == Event::<'a>::Skip);
            assert forall|p: int| first <= p < last implies #[trigger] ev2[p] == ev1[p] by {}
            assert forall|p: int| 0 <= p < ev.len() && (p < from || p >= to) implies #[trigger] r[p] == ev[p] by {
                assert(r[p] == ev2[p]);
            }
            assert forall|p: int| from <= p < to && !(ev[p] is Group) implies #[trigger] r[p] == ev[p] by {
                if p >= last {
                    assert(ev2[p] == ev[p]);
                } else {
                    assert(r[p] == ev2[p]);
                }
            }
            assert forall|p: int| from <= p < to && ev[p] is Group implies (#[trigger] r[p] == ev[p] || r[p]
                == Event::<'a>::Skip) by {
                if p >= last {
                    assert(ev2[p] == ev[p]);
                } else {
                    assert(r[p] == ev2[p]);
                }
            }
            assert forall|p: int| from <= p < to && is_empty_group(ev[p]) implies #[trigger] r[p]
                == Event::<'a>::Skip by {
                if p >= last {
                    assert(ev2[p] == ev[p]);
                } else {
                    assert(r[p] == ev2[p]);
                    if p == ix {
                        assert(ev[ix] == Event::<'a>::Group(g));
                    }
                }
            }
        },
    }
}

/// looks for the first group between `from` and `to`
fn first_group(events: &Vec<Event>, from: usize, to: usize) -> (r: Option<(usize, Group)>)
    requires
        from <= to <= events@.len(),
    ensures
        match r {
            Option::Some((ix, g)) => first_group_in(events@, from as int, to as int) == Option::Some(
                (ix as int, g),
            ),
            Option::None => first_group_in(events@, from as int, to as int) is None,
        },
{
    let mut i = from;
    while i < to
        invariant
            from <= i <= to <= events@.len(),
            first_group_in(events@, from as int, to as int) == first_group_in(
                events@,
                i as int,
                to as int,
            ),
        decreases to - i,
    {
        match events[i] {
            Event::Group(g) => {
                return Option::Some((i, g));
            },
            _ => {},
        }
        i = i + 1;
    }
    Option::None
}

// 1. remove any tags around zero items
// 2. remove and/or tags around single item
// 3. drop inner pair of nested Optional

/// Marks the starts of empty groups between `from` and `to` as skipped; says whether
/// the range itself is empty.
fn normalize(outer_group: Group, events: &mut Vec<Event>, from: usize, to: usize) -> (r: bool)
    requires
        from <= to <= old(events)@.len(),
    ensures
        final(events)@ == normalized(old(events)@, from as int, to as int),
        r == (from == to),
    decreases to - from,
{
    proof {
        lemma_normalized_len(old(events)@, from as int, to as int);
    }
    let drop_group = from == to;
    let mut start = from;
    while start < to
        invariant
            from <= start <= to <= events@.len(),
            drop_group == (from == to),
            normalized(old(events)@, from as int, to as int) == normalized(
                events@,
                start as int,
                to as int,
            ),
        decreases to - start,
    {
        match first_group(events, start, to) {
            Option::None => {
                return drop_group;
            },
            Option::Some((group_offset, inner_group)) => {
                proof {
                    lemma_first_group_in(events@, start as int, to as int);
                }
                let first_child = group_offset + 1;
                let glen = inner_group.len();
                let last_child = if glen <= to - first_child {
                    first_child + glen
                } else {
                    to
                };
                let ghost before = events@;
                proof {
                    lemma_normalized_len(events@, first_child as int, last_child as int);
                }
                let empty = normalize(inner_group, events, first_child, last_child);
                if empty {
                    events.set(group_offset, Event::Skip);
                }
                assert(normalized(before, start as int, to as int) == normalized(
                    events@,
                    last_child as int,
                    to as int,
                ));
                start = last_child;
            },
        }
    }
    drop_group
}

/// How one atom is written in a usage line.
pub open spec fn atom_text<'a>(a: Atom<'a>) -> Seq<char> {
    match a {
        Atom::Item(it) => match *it {
            Item::Flag(n) => short_long_text(n),
            Item::Argument(n, m) => short_long_text(n) + "="@ + m@,
            Item::Positional(m) => m@,
        },
        Atom::Command => "COMMAND ..."@,
        Atom::Strict => "--"@,
        Atom::Text(t) => t@,
    }
}

/// A group around the parts rendered for its events: nothing around nothing, the
/// parts themselves for a product, alternatives in parentheses (one alone stands
/// bare), an optional group in square brackets, a repeated one followed by `...`.
pub open spec fn group_parts(g: Group, inner: Seq<Seq<char>>) -> Seq<Seq<char>> {
    if inner.len() == 0 {
        Seq::empty()
    } else {
        match g {
            Group::And { .. } => inner,
            Group::Or { .. } => if inner.len() == 1 {
                inner
            } else {
                seq!["("@ + join(inner, " | "@) + ")"@]
            },
            Group::Optional { .. } => seq!["["@ + join(inner, " "@) + "]"@],
            Group::Many { .. } => if inner.len() == 1 {
                seq![inner[0] + "..."@]
            } else {
                seq!["("@ + join(inner, " "@) + ")..."@]
            },
        }
    }
}

/// The parts of the usage line for the events from `from` to `to`: skipped events
/// give nothing, an atom its text, a group its parts around those of its events.
pub open spec fn render_parts<'a>(ev: Seq<Event<'a>>, from: int, to: int) -> Seq<Seq<char>>
    decreases to - from,
{
    if from >= to || from < 0 || to > ev.len() {
        Seq::empty()
    } else {
        match ev[from] {
            Event::Skip => render_parts(ev, from + 1, to),
            Event::Atom(a) => seq![atom_text(a)] + render_parts(ev, from + 1, to),
            Event::Group(g) => {
                let end = if from + 1 + g.spec_len() <= to {
                    from + 1 + g.spec_len()
                } else {
                    to
                };
                group_parts(g, render_parts(ev, from + 1, end)) + render_parts(ev, end, to)
            },
        }
    }
}

/// A group that holds no events adds nothing to the usage line.
pub proof fn empty_group_renders_nothing<'a>(ev: Seq<Event<'a>>, from: int, to: int, g: Group)
    requires
        0 <= from < to <= ev.len(),
        ev[from] == Event::<'a>::Group(g),
        g.spec_len() == 0,
    ensures
        render_parts(ev, from, to) == render_parts(ev, from + 1, to),
{
    assert(render_parts(ev, from + 1, from + 1) =~= Seq::<Seq<char>>::empty());
    assert(group_parts(g, Seq::empty()) =~= Seq::<Seq<char>>::empty());
    assert(Seq::<Seq<char>>::empty() + render_parts(ev, from + 1, to) =~= render_parts(
        ev,
        from + 1,
        to,
    ));
}

fn atom_text_exec(a: Atom) -> (r: String)
    ensures
        r@ == atom_text(a),
{
    match a {
        Atom::Item(it) => match it {
            Item::Flag(n) => n.to_text(),
            Item::Argument(n, m) => {
                let mut r = n.to_text();
                push_text(&mut r, "=");
                push_text(&mut r, m);
                r
            },
            Item::Positional(m) => copy_text(m),
        },
        Atom::Command => copy_text("COMMAND ..."),
        Atom::Strict => copy_text("--"),
        Atom::Text(t) => copy_text(t),
    }
}

fn append_parts(parts: &mut Vec<String>, more: Vec<String>)
    ensures
        texts_view(final(parts)@) == texts_view(old(parts)@) + texts_view(more@),
{
    let ghost start = texts_view(parts@);
    let mut more = more;
    let mut taken: Vec<String> = Vec::new();
    let ghost all = texts_view(more@);
    let mut i: usize = 0;
    let n = more.len();
    while i < n
        invariant
            n == more@.len(),
            all == texts_view(more@),
            i <= n,
            texts_view(parts@) == start + all.subrange(0, i as int),
        decreases n - i,
    {
        let t = copy_text(more[i].as_str());
        let ghost p0 = parts@;
        parts.push(t);
        assert(texts_view(parts@) =~= texts_view(p0).push(all[i as int]));
        assert(all.subrange(0, i + 1) =~= all.subrange(0, i as int).push(all[i as int]));
        assert(texts_view(parts@) =~= start + all.subrange(0, i + 1));
        i = i + 1;
    }
    assert(all.subrange(0, n as int) =~= all);
}

fn group_parts_exec(g: Group, inner: Vec<String>) -> (r: Vec<String>)
    ensures
        texts_view(r@) == group_parts(g, texts_view(inner@)),
{
    let ghost iv = texts_view(inner@);
    if inner.len() == 0 {
        let r: Vec<String> = Vec::new();
        assert(texts_view(r@) =~= Seq::<Seq<char>>::empty());
        return r;
    }
    match g {
        Group::And { .. } => inner,
        Group::Or { .. } => {
            if inner.len() == 1 {
                inner
            } else {
                let mut t = copy_text("(");
                let j = join_exec(&inner, " | ");
                push_text(&mut t, j.as_str());
                push_text(&mut t, ")");
                let r = vec![t];
                assert(texts_view(r@) =~= seq!["("@ + join(iv, " | "@) + ")"@]);
                r
            }
        },
        Group::Optional { .. } => {
            let mut t = copy_text("[");
            let j = join_exec(&inner, " ");
            push_text(&mut t, j.as_str());
            push_text(&mut t, "]");
            let r = vec![t];
            assert(texts_view(r@) =~= seq!["["@ + join(iv, " "@) + "]"@]);
            r
        },
        Group::Many { .. } => {
            if inner.len() == 1 {
                let mut t = copy_text(inner[0].as_str());
                push_text(&mut t, "...");
                let r = vec![t];
                assert(texts_view(r@) =~= seq![iv[0] + "..."@]);
                r
            } else {
                let mut t = copy_text("(");
                let j = join_exec(&inner, " ");
                push_text(&mut t, j.as_str());
                push_text(&mut t, ")...");
                let r = vec![t];
                assert(texts_view(r@) =~= seq!["("@ + join(iv, " "@) + ")..."@]);
                r
            }
        },
    }
}

/// The rendered parts of the events from `from` to `to`.
fn render_range(events: &Vec<Event>, from: usize, to: usize) -> (r: Vec<String>)
    requires
        from <= to <= events@.len(),
    ensures
        texts_view(r@) == render_parts(events@, from as int, to as int),
    decreases to - from,
{
    let mut parts: Vec<String> = Vec::new();
    let mut i = from;
    assert(texts_view(parts@) =~= Seq::<Seq<char>>::empty());
    while i < to
        invariant
            from <= i <= to <= events@.len(),
            texts_view(parts@) + render_parts(events@, i as int, to as int) == render_parts(
                events@,
                from as int,
                to as int,
            ),
        decreases to - i,
    {
        let ghost p0 = texts_view(parts@);
        match events[i] {
            Event::Skip => {
                i = i + 1;
            },
            Event::Atom(a) => {
                let t = atom_text_exec(a);
                parts.push(t);
                assert(texts_view(parts@) =~= p0 + seq![atom_text(a)]);
                assert(texts_view(parts@) + render_parts(events@, i + 1, to as int) =~= p0 + (seq![
                    atom_text(a),
                ] + render_parts(events@, i + 1, to as int)));
                i = i + 1;
            },
            Event::Group(g) => {
                let glen = g.len();
                let end = if glen < to - i {
                    i + 1 + glen
                } else {
                    to
                };
                let inner = render_range(events, i + 1, end);
                let gp = group_parts_exec(g, inner);
                let ghost gpv = texts_view(gp@);
                append_parts(&mut parts, gp);
                assert(texts_view(parts@) + render_parts(events@, end as int, to as int) =~= p0 + (
                gpv + render_parts(events@, end as int, to as int)));
                i = end;
            },
        }
    }
    assert(texts_view(parts@) + render_parts(events@, to as int, to as int) =~= texts_view(parts@));
    parts
}

/// What a parser reports of its structure while a usage line or help is made.
pub trait Visitor<'a> {
    /// Whether `pop` has an open group to close.
    spec fn can_pop(&self) -> bool;

    fn command(&mut self, long_name: &'a str, short_name: char) -> bool;

    fn item(&mut self, item: &'a Item);

    fn pop(&mut self)
        requires
            old(self).can_pop(),
    ;

    fn push(&mut self, decor: Decor);
}

/// The events a parser reported, and where its open groups start.
pub struct Usage<'a> {
    events: Vec<Event<'a>>,
    group_start: Vec<usize>,
}

impl<'a> Usage<'a> {
    /// The events reported so far.
    pub closed spec fn events_of(&self) -> Seq<Event<'a>> {
        self.events@
    }

    /// The positions of the groups still open, innermost last.
    pub closed spec fn starts_of(&self) -> Seq<usize> {
        self.group_start@
    }

    /// Every open group starts at a recorded event, and the events can be counted
    /// in a `usize`.
    pub open spec fn wf(&self) -> bool {
        &&& forall|k: int| 0 <= k < self.starts_of().len() ==> #[trigger] self.starts_of()[k] < self.events_of().len()
        &&& self.events_of().len() <= usize::MAX
    }

    /// The events held can always be counted in a `usize`.
    pub proof fn events_fit(&self)
        ensures
            self.events_of().len() <= usize::MAX,
    {
        vstd::std_specs::vec::axiom_spec_len(&self.events);
    }

    /// Marks the groups that hold no events as skipped.
    pub fn normalize(&mut self)
        ensures
            final(self).events_of() == normalized(
                old(self).events_of(),
                0,
                old(self).events_of().len() as int,
            ),
            normalizes(
                old(self).events_of(),
                final(self).events_of(),
                0,
                old(self).events_of().len() as int,
            ),
            final(self).starts_of() == old(self).starts_of(),
    {
        let len = self.events.len();
        let ghost before = self.events@;
        normalize(Group::And { len }, &mut self.events, 0, len);
        proof {
            normalized_marks_empty_groups(before, 0, before.len() as int);
        }
    }

    /// The usage line: the parts of the normalized events, separated by spaces.
    pub fn render(self) -> (r: String)
        ensures
            r@ == join(
                render_parts(
                    normalized(self.events_of(), 0, self.events_of().len() as int),
                    0,
                    self.events_of().len() as int,
                ),
                " "@,
            ),
    {
        let mut this = self;
        let ghost ev = this.events@;
        this.normalize();
        proof {
            lemma_normalized_len(ev, 0, ev.len() as int);
        }
        let parts = render_range(&this.events, 0, this.events.len());
        join_exec(&parts, " ")
    }

    /// collapse groups
    /// - products in products: (-a (-b -c)) => (-a -b -c)
    /// - sums in sums: (-a | (-b | -c)) => (-a | -b | -c)
    ///
    /// Rendering already writes a product inside a product without brackets, so the
    /// events are left as they are.
    pub fn group_collapse(&mut self)
        ensures
            final(self).events_of() == old(self).events_of(),
            final(self).starts_of() == old(self).starts_of(),
    {
    }
}

impl<'a> Default for Usage<'a> {
    /// No event and no open group.
    fn default() -> (r: Usage<'a>)
        ensures
            r.events_of() == Seq::<Event<'a>>::empty(),
            r.starts_of() == Seq::<usize>::empty(),
    {
        Usage { events: Vec::new(), group_start: Vec::new() }
    }
}

impl<'a> Visitor<'a> for Usage<'a> {
    open spec fn can_pop(&self) -> bool {
        self.wf() && self.starts_of().len() > 0
    }

    fn item(&mut self, item: &'a Item)
        ensures
            final(self).events_of() == old(self).events_of().push(Event::Atom(Atom::Item(item))),
            final(self).starts_of() == old(self).starts_of(),
            old(self).wf() ==> final(self).wf(),
    {
        self.events.push(Event::Atom(Atom::Item(item)));
        proof {
            self.events_fit();
        }
    }

    fn command(&mut self, _long_name: &'a str, _short_name: char) -> (r: bool)
        ensures
            final(self).events_of() == old(self).events_of().push(Event::Atom(Atom::Command)),
            final(self).starts_of() == old(self).starts_of(),
            old(self).wf() ==> final(self).wf(),
            !r,
    {
        self.events.push(Event::Atom(Atom::Command));
        proof {
            self.events_fit();
        }
        false
    }

    fn push(&mut self, decor: Decor)
        ensures
            final(self).events_of() == old(self).events_of().push(
                Event::Group(
                    match decor {
                        Decor::Many => Group::Many { len: 0 },
                        Decor::Optional => Group::Optional { len: 0 },
                        Decor::And => Group::And { len: 0 },
                        Decor::Or => Group::Or { len: 0 },
                    },
                ),
            ),
            final(self).starts_of() == old(self).starts_of().push(old(self).events_of().len() as usize),
            old(self).wf() ==> final(self).wf(),
    {
        self.group_start.push(self.events.len());
        self.events.push(
            Event::Group(
                match decor {
                    Decor::Many => Group::Many { len: 0 },
                    Decor::Optional => Group::Optional { len: 0 },
                    Decor::And => Group::And { len: 0 },
                    Decor::Or => Group::Or { len: 0 },
                },
            ),
        );
        proof {
            self.events_fit();
            if old(self).wf() {
                assert forall|k: int| 0 <= k < self.starts_of().len() implies #[trigger] self.starts_of()[k]
                    < self.events_of().len() by {
                    if k < old(self).starts_of().len() {
                        assert(self.starts_of()[k] == old(self).starts_of()[k]);
                    }
                }
            }
        }
    }

    fn pop(&mut self)
        ensures
            old(self).events_of().len() <= usize::MAX,
            ({
                let open = old(self).starts_of().last();
                let n = (old(self).events_of().len() - open - 1) as usize;
                &&& final(self).starts_of() == old(self).starts_of().drop_last()
                &&& final(self).events_of() == match old(self).events_of()[open as int] {
                    Event::Group(g) => old(self).events_of().update(open as int, Event::Group(g.with_len(n))),
                    _ => old(self).events_of(),
                }
            }),
            final(self).wf(),
    {
        let open = self.group_start.pop().unwrap();
        let group_len = self.events.len() - open - 1;
        match self.events[open] {
            Event::Group(g) => {
                let ng = match g {
                    Group::And { .. } => Group::And { len: group_len },
                    Group::Or { .. } => Group::Or { len: group_len },
                    Group::Optional { .. } => Group::Optional { len: group_len },
                    Group::Many { .. } => Group::Many { len: group_len },
                };
                self.events.set(open, Event::Group(ng));
            },
            _ => {},
        }
    }
}

/// The command line arguments a parser consumes.
pub struct State;

/// A failed parse.
pub struct Error;

/// A command line parser: it can run on arguments, and describe itself to a visitor.
pub trait Parser<T> {
    fn eval(&self, args: &mut State) -> Result<T, Error>;

    fn meta(&self, visitor: &mut dyn Visitor);
}

/// A parser made of a closure that parses and one that describes, as products of
/// parsers are built.
pub struct Con<E, M> {
    pub eval: E,
    pub meta: M,
    pub failfast: bool,
}

} // verus!
