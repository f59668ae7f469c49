//! Composition of the status line from the readings, in a fixed order.

use vstd::prelude::*;

verus! {

/// The glyph written after every non-empty field but the clock.
pub const SEPARATOR: &'static str = " ⸱ ";

/// A field followed by the separator, or nothing for an empty field.
pub open spec fn separated_text(s: Seq<char>) -> Seq<char> {
    if s.len() == 0 {
        s
    } else {
        s + SEPARATOR@
    }
}

/// The fields in order, each non-empty one followed by the separator.
pub open spec fn joined(fields: Seq<Seq<char>>) -> Seq<char>
    decreases fields.len(),
{
    if fields.len() == 0 {
        Seq::empty()
    } else {
        joined(fields.drop_last()) + separated_text(fields.last())
    }
}

/// The status line: the joined fields, then the last field with nothing after it.
pub open spec fn status_line(fields: Seq<Seq<char>>, last: Seq<char>) -> Seq<char> {
    joined(fields) + last
}

pub open spec fn views(v: Seq<String>) -> Seq<Seq<char>> {
    v.map_values(|s: String| s@)
}

/// The readings of one cycle, one per field of the line.
#[derive(Clone, Debug)]
pub struct Readings {
    pub mail: String,
    pub volume: String,
    pub network: String,
    pub battery: String,
    pub ram: String,
    pub cpu: String,
    pub date: String,
}

impl Readings {
    /// The separated fields in the order they appear on the line.
    pub open spec fn fields(&self) -> Seq<Seq<char>> {
        seq![self.mail@, self.volume@, self.network@, self.battery@, self.ram@, self.cpu@]
    }
}

/// A field followed by the separator, or the empty field unchanged.
pub fn separated(s: String) -> (r: String)
    ensures
        r@ == separated_text(s@),
{
    if s.as_str().is_empty() {
        s
    } else {
        s.concat(SEPARATOR)
    }
}

/// The line of the given fields in order, ending with `last`.
pub fn compose(fields: &Vec<String>, last: &str) -> (r: String)
    ensures
        r@ == status_line(views(fields@), last@),
{
    let mut r = String::new();
    let mut i: usize = 0;
    while i < fields.len()
        invariant
            i <= fields@.len(),
            r@ == joined(views(fields@).take(i as int)),
        decreases fields@.len() - i,
    {
        let part = separated(fields[i].clone());
        assert(views(fields@).take(i + 1).drop_last() =~= views(fields@).take(i as int));
        r.append(part.as_str());
        i = i + 1;
    }
    assert(views(fields@).take(i as int) =~= views(fields@));
    r.append(last);
    r
}

/// The status line of one cycle: mail, volume, network, battery, memory,
/// processor, then the clock.
pub fn status(readings: &Readings) -> (r: String)
    ensures
        r@ == status_line(readings.fields(), readings.date@),
{
    let mut fields: Vec<String> = Vec::new();
    fields.push(readings.mail.clone());
    fields.push(readings.volume.clone());
    fields.push(readings.network.clone());
    fields.push(readings.battery.clone());
    fields.push(readings.ram.clone());
    fields.push(readings.cpu.clone());
    assert(views(fields@) =~= readings.fields());
    compose(&fields, readings.date.as_str())
}

proof fn lemma_joined_append(a: Seq<Seq<char>>, b: Seq<Seq<char>>)
    ensures
        joined(a + b) == joined(a) + joined(b),
    decreases b.len(),
{
    if b.len() == 0 {
        assert(a + b =~= a);
        assert(joined(a) + joined(b) =~= joined(a));
    } else {
        lemma_joined_append(a, b.drop_last());
        assert((a + b).drop_last() =~= a + b.drop_last());
        assert(joined(a) + joined(b) =~= joined(a) + joined(b.drop_last()) + separated_text(b.last()));
    }
}

/// The line splits at any field into the part made of the fields before it
/// and the part made of the rest: each field keeps its place in the order.
pub proof fn law_fields_keep_their_order(fields: Seq<Seq<char>>, k: int, last: Seq<char>)
    requires
        0 <= k <= fields.len(),
    ensures
        status_line(fields, last) == joined(fields.take(k)) + joined(fields.skip(k)) + last,
{
    assert(fields.take(k) + fields.skip(k) =~= fields);
    lemma_joined_append(fields.take(k), fields.skip(k));
}

/// An empty reading adds nothing to the line: no character and no separator.
pub proof fn law_empty_reading_adds_nothing(fields: Seq<Seq<char>>, i: int, last: Seq<char>)
    requires
        0 <= i < fields.len(),
        fields[i].len() == 0,
    ensures
        status_line(fields, last) == status_line(fields.remove(i), last),
{
    let pre = fields.take(i);
    let post = fields.skip(i + 1);
    assert(fields =~= pre + seq![fields[i]] + post);
    assert(fields.remove(i) =~= pre + post);
    lemma_joined_append(pre + seq![fields[i]], post);
    lemma_joined_append(pre, seq![fields[i]]);
    lemma_joined_append(pre, post);
    assert(seq![fields[i]].drop_last() =~= Seq::<Seq<char>>::empty());
    assert(joined(Seq::<Seq<char>>::empty()) =~= Seq::<char>::empty());
    assert(seq![fields[i]].last() == fields[i]);
    assert(joined(seq![fields[i]]) =~= Seq::<char>::empty());
}

/// A non-empty reading appears whole, directly followed by one separator,
/// after everything the fields before it contribute.
pub proof fn law_reading_then_one_separator(fields: Seq<Seq<char>>, i: int, last: Seq<char>)
    requires
        0 <= i < fields.len(),
        fields[i].len() > 0,
    ensures
        status_line(fields, last) == joined(fields.take(i)) + fields[i] + SEPARATOR@ + joined(
            fields.skip(i + 1),
        ) + last,
{
    let pre = fields.take(i);
    let post = fields.skip(i + 1);
    assert(fields =~= pre + seq![fields[i]] + post);
    lemma_joined_append(pre + seq![fields[i]], post);
    lemma_joined_append(pre, seq![fields[i]]);
    assert(seq![fields[i]].drop_last() =~= Seq::<Seq<char>>::empty());
    assert(joined(Seq::<Seq<char>>::empty()) =~= Seq::<char>::empty());
    assert(seq![fields[i]].last() == fields[i]);
    assert(joined(seq![fields[i]]) =~= fields[i] + SEPARATOR@);
    assert(status_line(fields, last) =~= joined(pre) + fields[i] + SEPARATOR@ + joined(post) + last);
}

/// When every reading is empty the line is the last field alone, with no
/// separator before it.
pub proof fn law_all_empty_gives_last_field(fields: Seq<Seq<char>>, last: Seq<char>)
    requires
        forall|i: int| 0 <= i < fields.len() ==> (#[trigger] fields[i]).len() == 0,
    ensures
        status_line(fields, last) == last,
    decreases fields.len(),
{
    if fields.len() > 0 {
        let rest = fields.drop_last();
        assert forall|i: int| 0 <= i < rest.len() implies (#[trigger] rest[i]).len() == 0 by {
            assert(rest[i] == fields[i]);
        }
        law_all_empty_gives_last_field(rest, last);
        assert(fields.last().len() == 0);
        assert(joined(rest) + last == last);
        assert(joined(rest) =~= Seq::<char>::empty());
        assert(joined(fields) =~= joined(rest) + separated_text(fields.last()));
        assert(joined(fields) =~= Seq::<char>::empty());
    } else {
        assert(joined(fields) =~= Seq::<char>::empty());
    }
    assert(status_line(fields, last) =~= last);
}

} // verus!
