//! What the orchestrator derives from the process configuration.

use vstd::prelude::*;
use vstd::string::*;

verus! {

/// The names joined by commas.
pub open spec fn joined(names: Seq<Seq<char>>) -> Seq<char>
    decreases names.len(),
{
    if names.len() == 0 {
        Seq::empty()
    } else if names.len() == 1 {
        names[0]
    } else {
        joined(names.drop_last()) + seq![','] + names.last()
    }
}

/// The characters of each name.
pub open spec fn name_views(names: Seq<String>) -> Seq<Seq<char>> {
    names.map_values(|n: String| n@)
}

/// Joining is unchanged by where the last name's last character is added.
proof fn lemma_joined_grows(names: Seq<Seq<char>>, last: Seq<char>, c: char)
    ensures
        joined(names.push(last.push(c))) == joined(names.push(last)).push(c),
{
    let short = names.push(last);
    let long = names.push(last.push(c));
    assert(short.drop_last() =~= names);
    assert(long.drop_last() =~= names);
    if names.len() == 0 {
    } else {
        assert(joined(names) + seq![','] + last.push(c) =~= (joined(names) + seq![','] + last).push(
            c,
        ));
    }
}

/// A comma ends the last name and begins an empty one.
proof fn lemma_joined_splits(names: Seq<Seq<char>>)
    requires
        names.len() > 0,
    ensures
        joined(names.push(Seq::empty())) == joined(names).push(','),
{
    let long = names.push(Seq::<char>::empty());
    assert(long.drop_last() =~= names);
    assert(joined(names) + seq![','] + Seq::<char>::empty() =~= joined(names).push(','));
}

/// Whether no name holds a comma.
pub open spec fn comma_free(names: Seq<Seq<char>>) -> bool {
    forall|i: int| 0 <= i < names.len() ==> !(#[trigger] names[i]).contains(',')
}

/// A text is split at its commas in one way only: two lists of comma-free
/// names, neither of them empty, that join to the same text are the same
/// list.
pub proof fn lemma_split_is_unique(a: Seq<Seq<char>>, b: Seq<Seq<char>>)
    requires
        a.len() >= 1,
        b.len() >= 1,
        comma_free(a),
        comma_free(b),
        joined(a) == joined(b),
    ensures
        a == b,
    decreases a.len(),
{
    let text = joined(a);
    let x = a.last();
    let y = b.last();
    assert(!x.contains(',') && !y.contains(','));
    if a.len() == 1 || b.len() == 1 {
        if a.len() > 1 {
            let head = joined(a.drop_last());
            assert(text[head.len() as int] == ',');
            assert(y[head.len() as int] == ',');
        }
        if b.len() > 1 {
            let head = joined(b.drop_last());
            assert(text[head.len() as int] == ',');
            assert(x[head.len() as int] == ',');
        }
        assert(a =~= b);
    } else {
        let head_a = joined(a.drop_last());
        let head_b = joined(b.drop_last());
        assert(text.len() == head_a.len() + 1 + x.len());
        assert(text.len() == head_b.len() + 1 + y.len());
        assert(text[head_a.len() as int] == ',');
        assert(text[head_b.len() as int] == ',');
        if head_a.len() > head_b.len() {
            assert(y[head_a.len() - head_b.len() - 1] == text[head_a.len() as int]);
        }
        if head_b.len() > head_a.len() {
            assert(x[head_b.len() - head_a.len() - 1] == text[head_b.len() as int]);
        }
        assert(x =~= y) by {
            assert forall|i: int| 0 <= i < x.len() implies x[i] == y[i] by {
                assert(x[i] == text[head_a.len() + 1 + i]);
                assert(y[i] == text[head_b.len() + 1 + i]);
            }
        }
        assert(head_a =~= head_b) by {
            assert forall|i: int| 0 <= i < head_a.len() implies head_a[i] == head_b[i] by {
                assert(head_a[i] == text[i]);
                assert(head_b[i] == text[i]);
            }
        }
        assert(comma_free(a.drop_last())) by {
            assert forall|i: int| 0 <= i < a.drop_last().len() implies !(
            #[trigger] a.drop_last()[i]).contains(',') by {
                assert(a.drop_last()[i] == a[i]);
            }
        }
        assert(comma_free(b.drop_last())) by {
            assert forall|i: int| 0 <= i < b.drop_last().len() implies !(
            #[trigger] b.drop_last()[i]).contains(',') by {
                assert(b.drop_last()[i] == b[i]);
            }
        }
        lemma_split_is_unique(a.drop_last(), b.drop_last());
        assert(a =~= a.drop_last().push(x));
        assert(b =~= b.drop_last().push(y));
    }
}

/// Splits the configured list of tables at its commas. The result is the one
/// list of comma-free names that, joined by commas, gives the configured text
/// back: nothing is trimmed and an empty name stays in its place.
pub fn table_names(tables: &str) -> (names: Vec<String>)
    ensures
        names.len() >= 1,
        comma_free(name_views(names@)),
        joined(name_views(names@)) == tables@,
{
    let total = tables.unicode_len();
    let mut names: Vec<String> = Vec::new();
    let mut from: usize = 0;
    let mut at: usize = 0;
    proof {
        assert(tables@.subrange(0, 0) =~= Seq::<char>::empty());
        assert(name_views(names@).push(Seq::<char>::empty()) =~= seq![Seq::<char>::empty()]);
        assert(tables@.take(0) =~= Seq::<char>::empty());
    }
    for c in it: tables.chars()
        invariant
            total == tables@.len(),
            it.seq() == tables@,
            at == it.index(),
            from <= at <= total,
            forall|i: int| 0 <= i < names.len() ==> !(#[trigger] names[i])@.contains(','),
            !tables@.subrange(from as int, at as int).contains(','),
            joined(name_views(names@).push(tables@.subrange(from as int, at as int)))
                == tables@.take(at as int),
    {
        let ghost before = name_views(names@);
        let ghost current = tables@.subrange(from as int, at as int);
        assert(c == tables@[at as int]);
        assert(tables@.take(at + 1) =~= tables@.take(at as int).push(c));
        if c == ',' {
            names.push(tables.substring_char(from, at).to_owned());
            proof {
                assert(name_views(names@) =~= before.push(current));
                lemma_joined_splits(before.push(current));
                assert(tables@.subrange(at + 1, at + 1) =~= Seq::<char>::empty());
            }
            from = at + 1;
            at = at + 1;
        } else {
            proof {
                lemma_joined_grows(before, current, c);
                let longer = tables@.subrange(from as int, at + 1);
                assert(longer =~= current.push(c));
                assert(!longer.contains(',')) by {
                    if longer.contains(',') {
                        let i = choose|i: int| 0 <= i < longer.len() && longer[i] == ',';
                        if i < current.len() {
                            assert(current[i] == ',');
                        }
                    }
                }
            }
            at = at + 1;
        }
    }
    let ghost before = name_views(names@);
    names.push(tables.substring_char(from, at).to_owned());
    proof {
        assert(name_views(names@) =~= before.push(tables@.subrange(from as int, at as int)));
        assert(tables@.take(at as int) =~= tables@);
        assert forall|i: int| 0 <= i < names.len() implies !(#[trigger] name_views(
            names@,
        )[i]).contains(',') by {
            if i < names.len() - 1 {
                assert(!names[i]@.contains(','));
            }
        }
    }
    names
}

/// The limits of the database connection pool.
#[derive(Debug, Clone, Copy, PartialEq, Eq, Structural)]
pub struct PoolSize {
    pub max_connections: u32,
    pub min_connections: u32,
}

/// The pool for `tables` consumers: two connections for each at most, and as
/// many as there are tables at least. Counts beyond `u32::MAX` stop there.
pub fn pool_size(tables: usize) -> (size: PoolSize)
    ensures
        size.min_connections == if tables <= u32::MAX {
            tables as int
        } else {
            u32::MAX as int
        },
        size.max_connections == if 2 * tables <= u32::MAX {
            2 * tables
        } else {
            u32::MAX as int
        },
{
    let least: u32 = if tables <= u32::MAX as usize {
        tables as u32
    } else {
        u32::MAX
    };
    let most: u32 = if least <= u32::MAX / 2 {
        2 * least
    } else {
        u32::MAX
    };
    PoolSize { max_connections: most, min_connections: least }
}

} // verus!
