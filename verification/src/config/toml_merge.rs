//! Merging of configuration values: what a later file says wins over what
//! an earlier one said, table by table and item by item.

use vstd::prelude::*;

verus! {

/// A value of a configuration file. A table holds each of its keys once:
/// `well_formed` says so of a value, `is_well_formed` tests it, and merging
/// keeps it.
#[derive(Debug)]
pub enum Value {
    String(String),
    Integer(i64),
    /// A floating-point number, by its bits.
    Float(u64),
    Boolean(bool),
    /// A date or a time, as it is written.
    Datetime(String),
    Array(Vec<Value>),
    /// The entries of a table: each key with its value.
    Table(Vec<(String, Value)>),
}

/// A `Value` in the terms of contracts.
pub enum ValueView {
    String(Seq<char>),
    Integer(i64),
    Float(u64),
    Boolean(bool),
    Datetime(Seq<char>),
    Array(Seq<ValueView>),
    Table(Seq<(Seq<char>, ValueView)>),
}

/// The items of an array in the terms of contracts.
pub open spec fn items_view(items: Seq<Value>) -> Seq<ValueView>
    decreases items,
{
    if items.len() == 0 {
        Seq::empty()
    } else {
        items_view(items.drop_last()).push(value_view(items.last()))
    }
}

/// The entries of a table in the terms of contracts.
pub open spec fn entries_view(entries: Seq<(String, Value)>) -> Seq<(Seq<char>, ValueView)>
    decreases entries,
{
    if entries.len() == 0 {
        Seq::empty()
    } else {
        entries_view(entries.drop_last()).push(
            (entries.last().0@, value_view(entries.last().1)),
        )
    }
}

/// A value in the terms of contracts.
pub open spec fn value_view(value: Value) -> ValueView
    decreases value,
{
    match value {
        Value::String(s) => ValueView::String(s@),
        Value::Integer(i) => ValueView::Integer(i),
        Value::Float(f) => ValueView::Float(f),
        Value::Boolean(b) => ValueView::Boolean(b),
        Value::Datetime(d) => ValueView::Datetime(d@),
        Value::Array(items) => ValueView::Array(items_view(items@)),
        Value::Table(entries) => ValueView::Table(entries_view(entries@)),
    }
}

impl View for Value {
    type V = ValueView;

    open spec fn view(&self) -> ValueView {
        value_view(*self)
    }
}

/// Whether no key occurs twice among the entries.
pub open spec fn distinct_keys(entries: Seq<(Seq<char>, ValueView)>) -> bool {
    forall|i: int, j: int| 0 <= i < j < entries.len() ==> entries[i].0 != entries[j].0
}

/// Whether the value is one that a configuration file can hold: in every
/// table of it, at any depth, each key occurs once.
pub open spec fn well_formed(value: ValueView) -> bool
    decreases value,
{
    match value {
        ValueView::Array(items) => forall|i: int|
            0 <= i < items.len() ==> well_formed(#[trigger] items[i]),
        ValueView::Table(entries) => distinct_keys(entries) && forall|i: int|
            0 <= i < entries.len() ==> well_formed((#[trigger] entries[i]).1),
        _ => true,
    }
}

/// Whether every item is well formed.
pub open spec fn items_well_formed(items: Seq<ValueView>) -> bool {
    forall|i: int| 0 <= i < items.len() ==> well_formed(#[trigger] items[i])
}

/// Whether no key occurs twice among the entries, and every value is well
/// formed.
pub open spec fn entries_well_formed(entries: Seq<(Seq<char>, ValueView)>) -> bool {
    distinct_keys(entries) && forall|i: int|
        0 <= i < entries.len() ==> well_formed((#[trigger] entries[i]).1)
}

/// The place of the entry with the key, if the table has one.
pub open spec fn index_of(entries: Seq<(Seq<char>, ValueView)>, key: Seq<char>) -> Option<int>
    decreases entries.len(),
{
    if entries.len() == 0 {
        None
    } else if entries[0].0 == key {
        Some(0)
    } else {
        match index_of(entries.drop_first(), key) {
            Some(i) => Some(i + 1),
            None => None,
        }
    }
}

/// `value` merged into `merged`. Where both are arrays, or both are
/// tables, they are merged part by part; else `value` takes the place of
/// `merged`.
pub open spec fn merged(into: ValueView, value: ValueView) -> ValueView
    decreases value,
{
    match (into, value) {
        (ValueView::Array(x), ValueView::Array(y)) => ValueView::Array(merged_items(x, y)),
        (ValueView::Table(x), ValueView::Table(y)) => ValueView::Table(merged_entries(x, y)),
        _ => value,
    }
}

/// The items of `y` merged into those of `x`, place by place; the longer
/// array keeps its further items.
pub open spec fn merged_items(x: Seq<ValueView>, y: Seq<ValueView>) -> Seq<ValueView>
    decreases y,
{
    if y.len() == 0 {
        x
    } else if x.len() == 0 {
        y
    } else {
        seq![merged(x[0], y[0])] + merged_items(x.drop_first(), y.drop_first())
    }
}

/// The entries of `y` merged into those of `x`, one after the other: an
/// entry whose key `x` has is merged into that entry; another is added at
/// the end.
pub open spec fn merged_entries(
    x: Seq<(Seq<char>, ValueView)>,
    y: Seq<(Seq<char>, ValueView)>,
) -> Seq<(Seq<char>, ValueView)>
    decreases y,
{
    if y.len() == 0 {
        x
    } else {
        let entry = y[0];
        let next = match index_of(x, entry.0) {
            Some(i) => x.update(i, (entry.0, merged(x[i].1, entry.1))),
            None => x.push(entry),
        };
        merged_entries(next, y.drop_first())
    }
}

/// The view of a list of items has the view of each item in its place.
pub proof fn lemma_items_view(items: Seq<Value>)
    ensures
        items_view(items).len() == items.len(),
        forall|i: int|
            0 <= i < items.len() ==> #[trigger] items_view(items)[i] == value_view(items[i]),
    decreases items.len(),
{
    if items.len() > 0 {
        lemma_items_view(items.drop_last());
        assert forall|i: int| 0 <= i < items.len() implies #[trigger] items_view(items)[i]
            == value_view(items[i]) by {
            if i < items.len() - 1 {
                assert(items.drop_last()[i] == items[i]);
            }
        }
    }
}

/// The view of a list of entries has the view of each entry in its place.
pub proof fn lemma_entries_view(entries: Seq<(String, Value)>)
    ensures
        entries_view(entries).len() == entries.len(),
        forall|i: int|
            0 <= i < entries.len() ==> #[trigger] entries_view(entries)[i] == (
                entries[i].0@,
                value_view(entries[i].1),
            ),
    decreases entries.len(),
{
    if entries.len() > 0 {
        lemma_entries_view(entries.drop_last());
        assert forall|i: int| 0 <= i < entries.len() implies #[trigger] entries_view(entries)[i]
            == (entries[i].0@, value_view(entries[i].1)) by {
            if i < entries.len() - 1 {
                assert(entries.drop_last()[i] == entries[i]);
            }
        }
    }
}

/// Where no entry before place `k` has the key, the first entry that has it
/// is the first from `k` on.
pub proof fn lemma_index_of_after(entries: Seq<(Seq<char>, ValueView)>, key: Seq<char>, k: int)
    requires
        0 <= k <= entries.len(),
        forall|i: int| 0 <= i < k ==> (#[trigger] entries[i]).0 != key,
    ensures
        index_of(entries, key) == (match index_of(entries.skip(k), key) {
            Some(i) => Some(i + k),
            None => None,
        }),
    decreases k,
{
    if k == 0 {
        assert(entries.skip(0) =~= entries);
    } else {
        let rest = entries.drop_first();
        assert(entries[0].0 != key);
        assert forall|i: int| 0 <= i < k - 1 implies (#[trigger] rest[i]).0 != key by {
            assert(rest[i] == entries[i + 1]);
        }
        lemma_index_of_after(rest, key, k - 1);
        assert(rest.skip(k - 1) =~= entries.skip(k));
    }
}

/// The place that `index_of` gives lies in the table, and the entry there
/// has the key.
pub proof fn lemma_index_of_in_range(entries: Seq<(Seq<char>, ValueView)>, key: Seq<char>)
    ensures
        index_of(entries, key) matches Some(i) ==> 0 <= i < entries.len() && entries[i].0 == key,
    decreases entries.len(),
{
    if entries.len() > 0 && entries[0].0 != key {
        lemma_index_of_in_range(entries.drop_first(), key);
    }
}

/// An array is well formed where every item of it is; a table, where no
/// key occurs twice in it and every value of it is well formed.
pub proof fn lemma_well_formed_parts(value: ValueView)
    ensures
        value matches ValueView::Array(items) ==> (well_formed(value) <==> items_well_formed(
            items,
        )),
        value matches ValueView::Table(entries) ==> (well_formed(value) <==> entries_well_formed(
            entries,
        )),
{
    match value {
        ValueView::Array(items) => {
            if well_formed(value) {
                assert forall|i: int| 0 <= i < items.len() implies well_formed(
                    #[trigger] items[i],
                ) by {}
            }
        },
        ValueView::Table(entries) => {
            if well_formed(value) {
                assert forall|i: int| 0 <= i < entries.len() implies well_formed(
                    (#[trigger] entries[i]).1,
                ) by {}
            }
        },
        _ => {},
    }
}

/// Where `index_of` finds no entry, no entry has the key.
pub proof fn lemma_index_of_none(entries: Seq<(Seq<char>, ValueView)>, key: Seq<char>)
    requires
        index_of(entries, key) is None,
    ensures
        forall|i: int| 0 <= i < entries.len() ==> (#[trigger] entries[i]).0 != key,
    decreases entries.len(),
{
    if entries.len() > 0 {
        let rest = entries.drop_first();
        lemma_index_of_none(rest, key);
        assert forall|i: int| 0 <= i < entries.len() implies (#[trigger] entries[i]).0 != key by {
            if i > 0 {
                assert(entries[i] == rest[i - 1]);
            }
        }
    }
}

/// Merging keeps values well formed: where each key occurs once in every
/// table of `into` and of `value`, it does so in every table of what they
/// merge into.
pub proof fn lemma_merged_well_formed(into: ValueView, value: ValueView)
    requires
        well_formed(into),
        well_formed(value),
    ensures
        well_formed(merged(into, value)),
    decreases value, 0nat,
{
    match (into, value) {
        (ValueView::Array(x), ValueView::Array(y)) => {
            lemma_merged_items_well_formed(x, y);
        },
        (ValueView::Table(x), ValueView::Table(y)) => {
            lemma_merged_entries_well_formed(x, y);
        },
        _ => {},
    }
}

/// Merging arrays of well-formed items gives well-formed items.
pub proof fn lemma_merged_items_well_formed(x: Seq<ValueView>, y: Seq<ValueView>)
    requires
        items_well_formed(x),
        items_well_formed(y),
    ensures
        items_well_formed(merged_items(x, y)),
    decreases y, 1nat,
{
    if y.len() == 0 || x.len() == 0 {
    } else {
        let rest = merged_items(x.drop_first(), y.drop_first());
        assert(well_formed(x[0]) && well_formed(y[0]));
        lemma_merged_well_formed(x[0], y[0]);
        assert forall|i: int| 0 <= i < x.drop_first().len() implies well_formed(
            #[trigger] x.drop_first()[i],
        ) by {
            assert(x.drop_first()[i] == x[i + 1]);
        }
        assert forall|i: int| 0 <= i < y.drop_first().len() implies well_formed(
            #[trigger] y.drop_first()[i],
        ) by {
            assert(y.drop_first()[i] == y[i + 1]);
        }
        lemma_merged_items_well_formed(x.drop_first(), y.drop_first());
        let all = merged_items(x, y);
        assert forall|i: int| 0 <= i < all.len() implies well_formed(#[trigger] all[i]) by {
            if i > 0 {
                assert(all[i] == rest[i - 1]);
            }
        }
    }
}

/// Merging the entries of a table into a table with well-formed entries
/// gives well-formed entries: no key comes to occur twice.
pub proof fn lemma_merged_entries_well_formed(
    x: Seq<(Seq<char>, ValueView)>,
    y: Seq<(Seq<char>, ValueView)>,
)
    requires
        entries_well_formed(x),
        forall|i: int| 0 <= i < y.len() ==> well_formed((#[trigger] y[i]).1),
    ensures
        entries_well_formed(merged_entries(x, y)),
    decreases y, 1nat,
{
    if y.len() > 0 {
        let entry = y[0];
        assert(well_formed(entry.1));
        let next = match index_of(x, entry.0) {
            Some(i) => x.update(i, (entry.0, merged(x[i].1, entry.1))),
            None => x.push(entry),
        };
        match index_of(x, entry.0) {
            Some(i) => {
                lemma_index_of_in_range(x, entry.0);
                assert(well_formed(x[i].1));
                lemma_merged_well_formed(x[i].1, entry.1);
                assert forall|a: int, b: int| 0 <= a < b < next.len() implies next[a].0
                    != next[b].0 by {
                    assert(next[a].0 == x[a].0 && next[b].0 == x[b].0);
                }
                assert forall|k: int| 0 <= k < next.len() implies well_formed(
                    (#[trigger] next[k]).1,
                ) by {
                    if k != i {
                        assert(next[k] == x[k]);
                    }
                }
            },
            None => {
                lemma_index_of_none(x, entry.0);
                assert forall|a: int, b: int| 0 <= a < b < next.len() implies next[a].0
                    != next[b].0 by {
                    if b < x.len() {
                        assert(next[a] == x[a] && next[b] == x[b]);
                    } else {
                        assert(next[a] == x[a]);
                    }
                }
                assert forall|k: int| 0 <= k < next.len() implies well_formed(
                    (#[trigger] next[k]).1,
                ) by {
                    if k < x.len() {
                        assert(next[k] == x[k]);
                    }
                }
            },
        }
        assert forall|i: int| 0 <= i < y.drop_first().len() implies well_formed(
            (#[trigger] y.drop_first()[i]).1,
        ) by {
            assert(y.drop_first()[i] == y[i + 1]);
        }
        lemma_merged_entries_well_formed(next, y.drop_first());
    }
}

/// A copy of a value.
pub fn copy(value: &Value) -> (r: Value)
    ensures
        r@ == value@,
    decreases value,
{
    match value {
        Value::String(s) => Value::String(s.clone()),
        Value::Integer(i) => Value::Integer(*i),
        Value::Float(f) => Value::Float(*f),
        Value::Boolean(b) => Value::Boolean(*b),
        Value::Datetime(d) => Value::Datetime(d.clone()),
        Value::Array(items) => {
            let mut out: Vec<Value> = Vec::new();
            let mut k: usize = 0;
            while k < items.len()
                invariant
                    k <= items.len(),
                    *value == Value::Array(*items),
                    out.len() == k,
                    forall|i: int| 0 <= i < k ==> value_view(out@[i]) == value_view(items@[i]),
                decreases items.len() - k,
            {
                proof {
                    vstd::std_specs::vec::axiom_vec_index_decreases(*items, k as int);
                    assert(*items == value->Array_0);
                }
                let item = copy(&items[k]);
                out.push(item);
                k += 1;
            }
            proof {
                lemma_items_view(out@);
                lemma_items_view(items@);
                assert(items_view(out@) =~= items_view(items@));
            }
            Value::Array(out)
        },
        Value::Table(entries) => {
            let mut out: Vec<(String, Value)> = Vec::new();
            let mut k: usize = 0;
            while k < entries.len()
                invariant
                    k <= entries.len(),
                    *value == Value::Table(*entries),
                    out.len() == k,
                    forall|i: int|
                        0 <= i < k ==> out@[i].0@ == entries@[i].0@ && value_view(out@[i].1)
                            == value_view(entries@[i].1),
                decreases entries.len() - k,
            {
                proof {
                    vstd::std_specs::vec::axiom_vec_index_decreases(*entries, k as int);
                    assert(*entries == value->Table_0);
                }
                let entry = &entries[k];
                let item = copy(&entry.1);
                out.push((entry.0.clone(), item));
                k += 1;
            }
            proof {
                lemma_entries_view(out@);
                lemma_entries_view(entries@);
                assert(entries_view(out@) =~= entries_view(entries@));
            }
            Value::Table(out)
        },
    }
}

/// The place of the entry with the key, if the table has one.
pub fn find(entries: &Vec<(String, Value)>, key: &str) -> (r: Option<usize>)
    ensures
        match r {
            Some(i) => index_of(entries_view(entries@), key@) == Some(i as int) && i
                < entries.len(),
            None => index_of(entries_view(entries@), key@) is None,
        },
{
    let ghost table = entries_view(entries@);
    proof {
        lemma_entries_view(entries@);
    }
    let mut k: usize = 0;
    while k < entries.len()
        invariant
            k <= entries.len(),
            table == entries_view(entries@),
            table.len() == entries.len(),
            forall|i: int| 0 <= i < entries.len() ==> (#[trigger] table[i]).0 == entries@[i].0@,
            forall|i: int| 0 <= i < k ==> (#[trigger] table[i]).0 != key@,
        decreases entries.len() - k,
    {
        proof {
            lemma_index_of_after(table, key@, k as int);
            assert(table.skip(k as int)[0] == table[k as int]);
        }
        if crate::text::same(entries[k].0.as_str(), key) {
            return Some(k);
        }
        k += 1;
    }
    proof {
        lemma_index_of_after(table, key@, k as int);
        assert(table.skip(k as int) =~= Seq::empty());
    }
    None
}

/// Merging into no items gives the items that are merged in.
pub proof fn lemma_merged_items_into_none(y: Seq<ValueView>)
    ensures
        merged_items(Seq::empty(), y) == y,
{
    if y.len() == 0 {
        assert(y =~= Seq::<ValueView>::empty());
    }
}

/// Whether each key occurs once in every table of the value.
pub fn is_well_formed(value: &Value) -> (r: bool)
    ensures
        r == well_formed(value@),
    decreases value,
{
    match value {
        Value::Array(items) => {
            proof {
                lemma_items_view(items@);
            }
            let mut k: usize = 0;
            while k < items.len()
                invariant
                    k <= items.len(),
                    *value == Value::Array(*items),
                    items_view(items@).len() == items.len(),
                    forall|i: int|
                        0 <= i < items.len() ==> #[trigger] items_view(items@)[i] == value_view(
                            items@[i],
                        ),
                    forall|i: int| 0 <= i < k ==> well_formed(#[trigger] items_view(items@)[i]),
                decreases items.len() - k,
            {
                proof {
                    vstd::std_specs::vec::axiom_vec_index_decreases(*items, k as int);
                    assert(*items == value->Array_0);
                }
                if !is_well_formed(&items[k]) {
                    proof {
                        let views = items_view(items@);
                        assert(value@ == ValueView::Array(views));
                        assert(views[k as int] == value_view(items@[k as int]));
                        assert(!well_formed(views[k as int]));
                        lemma_well_formed_parts(value@);
                    }
                    return false;
                }
                k += 1;
            }
            true
        },
        Value::Table(entries) => {
            let ghost table = entries_view(entries@);
            proof {
                lemma_entries_view(entries@);
            }
            let mut k: usize = 0;
            while k < entries.len()
                invariant
                    k <= entries.len(),
                    *value == Value::Table(*entries),
                    table == entries_view(entries@),
                    table.len() == entries.len(),
                    forall|i: int|
                        0 <= i < entries.len() ==> #[trigger] table[i] == (
                            entries@[i].0@,
                            value_view(entries@[i].1),
                        ),
                    forall|i: int| 0 <= i < k ==> well_formed((#[trigger] table[i]).1),
                    forall|i: int, j: int| 0 <= i < j < k ==> table[i].0 != table[j].0,
                decreases entries.len() - k,
            {
                proof {
                    vstd::std_specs::vec::axiom_vec_index_decreases(*entries, k as int);
                    assert(*entries == value->Table_0);
                }
                if !is_well_formed(&entries[k].1) {
                    assert(!well_formed(table[k as int].1));
                    return false;
                }
                let mut j: usize = 0;
                while j < k
                    invariant
                        j <= k < entries.len(),
                        table == entries_view(entries@),
                        table.len() == entries.len(),
                        forall|i: int|
                            0 <= i < entries.len() ==> #[trigger] table[i] == (
                                entries@[i].0@,
                                value_view(entries@[i].1),
                            ),
                        *value == Value::Table(*entries),
                        forall|i: int| 0 <= i < j ==> table[i].0 != table[k as int].0,
                    decreases k - j,
                {
                    if crate::text::same(entries[j].0.as_str(), entries[k].0.as_str()) {
                        proof {
                            assert(value@ == ValueView::Table(table));
                            assert(table[j as int].0 == table[k as int].0);
                            assert(!distinct_keys(table));
                        }
                        return false;
                    }
                    j += 1;
                }
                k += 1;
            }
            true
        },
        _ => true,
    }
}

/// `value` merged into `into`: where both are arrays, or both are tables,
/// they are merged part by part; else `value` takes the place of `into`.
/// Where each key occurs once in every table of both, it does so in every
/// table of the result.
pub fn merge_values(into: Value, value: &Value) -> (r: Value)
    ensures
        r@ == merged(into@, value@),
        well_formed(into@) && well_formed(value@) ==> well_formed(r@),
    decreases value,
{
    proof {
        if well_formed(into@) && well_formed(value@) {
            lemma_merged_well_formed(into@, value@);
        }
    }
    match value {
        Value::Array(y) => match into {
            Value::Array(x) => {
                let ghost xs = items_view(x@);
                let ghost ys = items_view(y@);
                let mut rest = x;
                let mut out: Vec<Value> = Vec::new();
                let mut k: usize = 0;
                proof {
                    lemma_items_view(y@);
                    assert(ys.skip(0) =~= ys);
                    assert(items_view(out@) + merged_items(xs, ys) =~= merged_items(xs, ys));
                }
                while k < y.len()
                    invariant
                        k <= y.len(),
                        *value == Value::Array(*y),
                        ys == items_view(y@),
                        ys.len() == y.len(),
                        forall|i: int| 0 <= i < y.len() ==> #[trigger] ys[i] == value_view(y@[i]),
                        items_view(out@) + merged_items(items_view(rest@), ys.skip(k as int))
                            == merged_items(xs, ys),
                    decreases y.len() - k,
                {
                    let ghost before = items_view(out@);
                    let ghost out_before = out@;
                    let ghost rest_before = items_view(rest@);
                    let ghost tail = ys.skip(k as int);
                    proof {
                        vstd::std_specs::vec::axiom_vec_index_decreases(*y, k as int);
                        assert(*y == value->Array_0);
                        lemma_items_view(rest@);
                        assert(tail[0] == ys[k as int]);
                        assert(tail.drop_first() =~= ys.skip(k + 1));
                    }
                    if rest.len() > 0 {
                        let item = rest.remove(0);
                        let item = merge_values(item, &y[k]);
                        proof {
                            lemma_items_view(rest@);
                            assert(items_view(rest@) =~= rest_before.drop_first());
                        }
                        out.push(item);
                    } else {
                        let item = copy(&y[k]);
                        proof {
                            assert(rest_before =~= Seq::<ValueView>::empty());
                            lemma_merged_items_into_none(tail);
                            lemma_merged_items_into_none(ys.skip(k + 1));
                        }
                        out.push(item);
                    }
                    proof {
                        assert(out@.drop_last() =~= out_before);
                        assert(items_view(out@) == before.push(value_view(out@.last())));
                        assert(tail =~= seq![tail[0]] + tail.drop_first());
                        assert(items_view(out@) + merged_items(
                            items_view(rest@),
                            ys.skip(k + 1),
                        ) =~= before + merged_items(rest_before, tail));
                    }
                    k += 1;
                }
                proof {
                    assert(ys.skip(k as int) =~= Seq::<ValueView>::empty());
                }
                while rest.len() > 0
                    invariant
                        items_view(out@) + items_view(rest@) == merged_items(xs, ys),
                    decreases rest.len(),
                {
                    let ghost before = items_view(out@);
                    let ghost out_before = out@;
                    let ghost rest_before = items_view(rest@);
                    proof {
                        lemma_items_view(rest@);
                    }
                    let item = rest.remove(0);
                    proof {
                        lemma_items_view(rest@);
                        assert(items_view(rest@) =~= rest_before.drop_first());
                    }
                    out.push(item);
                    proof {
                        assert(out@.drop_last() =~= out_before);
                        assert(items_view(out@) == before.push(rest_before[0]));
                        assert(items_view(out@) + items_view(rest@) =~= before + rest_before);
                    }
                }
                proof {
                    lemma_items_view(rest@);
                    assert(items_view(out@) + items_view(rest@) =~= items_view(out@));
                }
                Value::Array(out)
            },
            _ => copy(value),
        },
        Value::Table(y) => match into {
            Value::Table(x) => {
                let ghost xs = entries_view(x@);
                let ghost ys = entries_view(y@);
                let mut table = x;
                let mut k: usize = 0;
                proof {
                    lemma_entries_view(y@);
                    assert(ys.skip(0) =~= ys);
                }
                while k < y.len()
                    invariant
                        k <= y.len(),
                        *value == Value::Table(*y),
                        ys == entries_view(y@),
                        ys.len() == y.len(),
                        forall|i: int|
                            0 <= i < y.len() ==> #[trigger] ys[i] == (
                                y@[i].0@,
                                value_view(y@[i].1),
                            ),
                        merged_entries(entries_view(table@), ys.skip(k as int)) == merged_entries(
                            xs,
                            ys,
                        ),
                    decreases y.len() - k,
                {
                    let ghost before = entries_view(table@);
                    let ghost tail = ys.skip(k as int);
                    proof {
                        vstd::std_specs::vec::axiom_vec_index_decreases(*y, k as int);
                        assert(*y == value->Table_0);
                        lemma_entries_view(table@);
                        lemma_index_of_in_range(before, ys[k as int].0);
                        assert(tail[0] == ys[k as int]);
                        assert(tail.drop_first() =~= ys.skip(k + 1));
                    }
                    let entry = &y[k];
                    match find(&table, entry.0.as_str()) {
                        Some(i) => {
                            let old_entry = table.remove(i);
                            let item = merge_values(old_entry.1, &entry.1);
                            table.insert(i, (entry.0.clone(), item));
                            proof {
                                lemma_entries_view(table@);
                                assert(entries_view(table@) =~= before.update(
                                    i as int,
                                    (ys[k as int].0, merged(before[i as int].1, ys[k as int].1)),
                                ));
                            }
                        },
                        None => {
                            let item = copy(&entry.1);
                            table.push((entry.0.clone(), item));
                            proof {
                                lemma_entries_view(table@);
                                assert(entries_view(table@) =~= before.push(ys[k as int]));
                            }
                        },
                    }
                    k += 1;
                }
                proof {
                    assert(ys.skip(k as int) =~= Seq::empty());
                }
                Value::Table(table)
            },
            _ => copy(value),
        },
        _ => copy(value),
    }
}

/// Merges `value` into `merged`. Where each key occurs once in every table
/// of both, it still does afterwards.
pub fn merge(merged: &mut Value, value: &Value)
    ensures
        final(merged)@ == self::merged(old(merged)@, value@),
        well_formed(old(merged)@) && well_formed(value@) ==> well_formed(final(merged)@),
{
    let mut into = Value::Boolean(false);
    std::mem::swap(merged, &mut into);
    *merged = merge_values(into, value);
}

/// Every document merged into an empty table, one after the other.
pub open spec fn merged_all(documents: Seq<ValueView>) -> ValueView
    decreases documents.len(),
{
    if documents.len() == 0 {
        ValueView::Table(Seq::empty())
    } else {
        merged(merged_all(documents.drop_last()), documents.last())
    }
}

/// Merging well-formed documents gives a well-formed document.
pub proof fn lemma_merged_all_well_formed(documents: Seq<ValueView>)
    requires
        items_well_formed(documents),
    ensures
        well_formed(merged_all(documents)),
    decreases documents.len(),
{
    if documents.len() > 0 {
        let front = documents.drop_last();
        assert forall|i: int| 0 <= i < front.len() implies well_formed(#[trigger] front[i]) by {
            assert(front[i] == documents[i]);
        }
        lemma_merged_all_well_formed(front);
        assert(well_formed(documents.last()));
        lemma_merged_well_formed(merged_all(front), documents.last());
    }
}

/// Merges one or more documents into one: what a later document says wins
/// over what an earlier one said. Where each key occurs once in every
/// table of every document, it does so in every table of the result.
pub fn merge_all(documents: &Vec<Value>) -> (r: Value)
    ensures
        r@ == merged_all(items_view(documents@)),
        items_well_formed(items_view(documents@)) ==> well_formed(r@),
{
    proof {
        if items_well_formed(items_view(documents@)) {
            lemma_merged_all_well_formed(items_view(documents@));
        }
    }
    let mut result = Value::Table(Vec::new());
    let mut k: usize = 0;
    proof {
        lemma_items_view(documents@);
        assert(entries_view(Seq::<(String, Value)>::empty()) =~= Seq::empty());
        assert(items_view(documents@).take(0) =~= Seq::empty());
    }
    while k < documents.len()
        invariant
            k <= documents.len(),
            items_view(documents@).len() == documents.len(),
            forall|i: int|
                0 <= i < documents.len() ==> #[trigger] items_view(documents@)[i] == value_view(
                    documents@[i],
                ),
            result@ == merged_all(items_view(documents@).take(k as int)),
        decreases documents.len() - k,
    {
        proof {
            let upto = items_view(documents@).take(k + 1);
            assert(upto.drop_last() =~= items_view(documents@).take(k as int));
            assert(upto.last() == documents@[k as int]@);
        }
        merge(&mut result, &documents[k]);
        k += 1;
    }
    assert(items_view(documents@).take(documents.len() as int) =~= items_view(documents@));
    result
}

} // verus!
