//! Ordering the records of an export by their creation time.
use vstd::prelude::*;
use crate::cli::migration::{AirtableRecord, AirtableRecords};

verus! {

/// `a` comes strictly before `b` when their characters are compared in turn
/// (a proper prefix comes first), the order of `String` comparison.
pub open spec fn text_lt(a: Seq<char>, b: Seq<char>) -> bool
    decreases a.len(),
{
    if a.len() == 0 {
        b.len() > 0
    } else if b.len() == 0 {
        false
    } else if a[0] != b[0] {
        (a[0] as int) < (b[0] as int)
    } else {
        text_lt(a.drop_first(), b.drop_first())
    }
}

/// Exactly one of `a < b`, `a == b`, `b < a` holds.
proof fn lemma_text_lt_trichotomy(a: Seq<char>, b: Seq<char>)
    ensures
        text_lt(a, b) || a == b || text_lt(b, a),
        !(text_lt(a, b) && text_lt(b, a)),
        !(text_lt(a, b) && a == b),
    decreases a.len(),
{
    if a.len() > 0 && b.len() > 0 && a[0] == b[0] {
        lemma_text_lt_trichotomy(a.drop_first(), b.drop_first());
        if a.drop_first() == b.drop_first() {
            assert(a =~= seq![a[0]] + a.drop_first());
            assert(b =~= seq![b[0]] + b.drop_first());
        }
    }
}

/// The order is transitive.
proof fn lemma_text_lt_transitive(a: Seq<char>, b: Seq<char>, c: Seq<char>)
    requires
        text_lt(a, b),
        text_lt(b, c),
    ensures
        text_lt(a, c),
    decreases a.len(),
{
    if a.len() > 0 && b.len() > 0 && c.len() > 0 && a[0] == b[0] && b[0] == c[0] {
        lemma_text_lt_transitive(a.drop_first(), b.drop_first(), c.drop_first());
    }
}

/// Records in order of creation time.
pub open spec fn sorted_by_created<T>(s: Seq<AirtableRecord<T>>) -> bool {
    forall|i: int, j: int|
        0 <= i < j < s.len() ==> !text_lt(#[trigger] s[j].created_time@, #[trigger] s[i].created_time@)
}

/// The records created at time `t`, in order.
pub open spec fn created_at<T>(s: Seq<AirtableRecord<T>>, t: Seq<char>) -> Seq<AirtableRecord<T>>
    decreases s.len(),
{
    if s.len() == 0 {
        Seq::empty()
    } else if s.last().created_time@ == t {
        created_at(s.drop_last(), t).push(s.last())
    } else {
        created_at(s.drop_last(), t)
    }
}

proof fn lemma_created_at_concat<T>(a: Seq<AirtableRecord<T>>, b: Seq<AirtableRecord<T>>, t: Seq<char>)
    ensures
        created_at(a + b, t) == created_at(a, t) + created_at(b, t),
    decreases b.len(),
{
    if b.len() == 0 {
        assert(a + b =~= a);
        assert(created_at(a, t) + created_at(b, t) =~= created_at(a, t));
    } else {
        lemma_created_at_concat(a, b.drop_last(), t);
        assert((a + b).drop_last() =~= a + b.drop_last());
        assert((a + b).last() == b.last());
        if b.last().created_time@ == t {
            assert(created_at(a, t) + created_at(b.drop_last(), t).push(b.last()) =~= (created_at(
                a,
                t,
            ) + created_at(b.drop_last(), t)).push(b.last()));
        }
    }
}

proof fn lemma_created_at_none<T>(s: Seq<AirtableRecord<T>>, t: Seq<char>)
    requires
        forall|i: int| 0 <= i < s.len() ==> #[trigger] s[i].created_time@ != t,
    ensures
        created_at(s, t) == Seq::<AirtableRecord<T>>::empty(),
    decreases s.len(),
{
    if s.len() > 0 {
        assert forall|i: int| 0 <= i < s.drop_last().len() implies #[trigger] s.drop_last()[i].created_time@ != t by {
            assert(s.drop_last()[i] == s[i]);
        }
        lemma_created_at_none(s.drop_last(), t);
    }
}

/// Whether `a` comes strictly before `b`.
pub fn text_less(a: &str, b: &str) -> (r: bool)
    ensures
        r == text_lt(a@, b@),
{
    let na = a.unicode_len();
    let nb = b.unicode_len();
    let mut i: usize = 0;
    assert(a@.skip(0) =~= a@);
    assert(b@.skip(0) =~= b@);
    while i < na && i < nb
        invariant
            na == a@.len(),
            nb == b@.len(),
            i <= na,
            i <= nb,
            text_lt(a@, b@) == text_lt(a@.skip(i as int), b@.skip(i as int)),
        decreases na - i,
    {
        let ca = a.get_char(i);
        let cb = b.get_char(i);
        assert(a@.skip(i as int)[0] == ca);
        assert(b@.skip(i as int)[0] == cb);
        if ca != cb {
            return (ca as u32) < (cb as u32);
        }
        assert(a@.skip(i as int).drop_first() =~= a@.skip(i + 1));
        assert(b@.skip(i as int).drop_first() =~= b@.skip(i + 1));
        i = i + 1;
    }
    i == na && i < nb
}

/// The records in order of creation time; records created at the same time
/// keep their order (a stable sort).
pub fn sort_by_created_time<T>(records: Vec<AirtableRecord<T>>) -> (r: Vec<AirtableRecord<T>>)
    ensures
        r@.len() == records@.len(),
        sorted_by_created(r@),
        forall|t: Seq<char>| #[trigger] created_at(r@, t) == created_at(records@, t),
{
    let ghost all = records@;
    let len0 = records.len();
    let mut rev = crate::services::factures::reversed(records);
    let mut out: Vec<AirtableRecord<T>> = Vec::new();
    let mut i: usize = 0;
    assert(all.take(0) =~= Seq::<AirtableRecord<T>>::empty());
    while rev.len() > 0
        invariant
            i + rev@.len() == all.len(),
            all.len() == len0,
            forall|j: int| 0 <= j < rev@.len() ==> rev@[j] == all[all.len() - 1 - j],
            out@.len() == i,
            sorted_by_created(out@),
            forall|t: Seq<char>| #[trigger] created_at(out@, t) == created_at(all.take(i as int), t),
        decreases rev.len(),
    {
        let x = rev.pop().unwrap();
        assert(x == all[i as int]);
        assert(all.take(i + 1).drop_last() =~= all.take(i as int));
        assert(all.take(i + 1).last() == x);
        let ghost kx = x.created_time@;
        // Position after the last record not created after `x`.
        let mut p: usize = out.len();
        while p > 0 && text_less(x.created_time.as_str(), out[p - 1].created_time.as_str())
            invariant
                p <= out@.len(),
                kx == x.created_time@,
                forall|j: int| p <= j < out@.len() ==> text_lt(kx, #[trigger] out@[j].created_time@),
            decreases p,
        {
            p = p - 1;
        }
        let ghost before = out@;
        proof {
            // Records before `p` are not created after `x`.
            assert forall|a: int| 0 <= a < p implies !text_lt(kx, #[trigger] before[a].created_time@) by {
                let last = p - 1;
                assert(!text_lt(kx, before[last].created_time@));
                if a < last {
                    assert(!text_lt(before[last].created_time@, before[a].created_time@));
                    if text_lt(kx, before[a].created_time@) {
                        lemma_text_lt_trichotomy(before[last].created_time@, kx);
                        if text_lt(kx, before[last].created_time@) {
                        } else if before[last].created_time@ == kx {
                        } else {
                            lemma_text_lt_transitive(
                                before[last].created_time@,
                                kx,
                                before[a].created_time@,
                            );
                        }
                    }
                }
            }
            // Records from `p` on are created after `x`, so not at its time.
            assert forall|a: int| p <= a < before.len() implies #[trigger] before[a].created_time@
                != kx by {
                lemma_text_lt_trichotomy(kx, before[a].created_time@);
            }
            let head = before.take(p as int);
            let tail = before.skip(p as int);
            assert(before =~= head + tail);
            assert(before.insert(p as int, x) =~= head + seq![x] + tail);
            assert forall|a: int| 0 <= a < tail.len() implies #[trigger] tail[a].created_time@ != kx by {
                assert(tail[a] == before[p + a]);
            }
            lemma_created_at_none(tail, kx);
            assert forall|t: Seq<char>| #[trigger] created_at(before.insert(p as int, x), t)
                == created_at(all.take(i + 1), t) by {
                let prev = created_at(all.take(i as int), t);
                assert(created_at(before, t) == prev);
                assert(created_at(all.take(i + 1), t) == if kx == t {
                    prev.push(x)
                } else {
                    prev
                });
                assert(seq![x].drop_last() =~= Seq::<AirtableRecord<T>>::empty());
                assert(seq![x].last() == x);
                assert(created_at(Seq::<AirtableRecord<T>>::empty(), t) =~= Seq::<
                    AirtableRecord<T>,
                >::empty());
                assert(created_at(seq![x], t) =~= if kx == t {
                    seq![x]
                } else {
                    Seq::<AirtableRecord<T>>::empty()
                });
                lemma_created_at_concat(head, tail, t);
                lemma_created_at_concat(head + seq![x], tail, t);
                lemma_created_at_concat(head, seq![x], t);
                if t == kx {
                    lemma_created_at_none(tail, t);
                    assert(created_at(head, t) + seq![x] + Seq::<AirtableRecord<T>>::empty()
                        =~= (created_at(head, t) + Seq::<AirtableRecord<T>>::empty()).push(x));
                } else {
                    assert(created_at(head, t) + Seq::<AirtableRecord<T>>::empty() =~= created_at(
                        head,
                        t,
                    ));
                }
            }
        }
        out.insert(p, x);
        proof {
            let now = out@;
            assert(now =~= before.insert(p as int, x));
            assert forall|a: int, b: int| 0 <= a < b < now.len() implies !text_lt(
                #[trigger] now[b].created_time@,
                #[trigger] now[a].created_time@,
            ) by {
                if b < p {
                    assert(now[a] == before[a] && now[b] == before[b]);
                } else if b == p {
                    assert(now[a] == before[a]);
                    assert(now[b] == x);
                    lemma_text_lt_trichotomy(kx, before[a].created_time@);
                } else if a == p {
                    assert(now[b] == before[b - 1]);
                    assert(now[a] == x);
                    assert(text_lt(kx, before[b - 1].created_time@));
                    lemma_text_lt_trichotomy(kx, before[b - 1].created_time@);
                } else if a < p {
                    assert(now[a] == before[a]);
                    assert(now[b] == before[b - 1]);
                    assert(!text_lt(kx, before[a].created_time@));
                    assert(text_lt(kx, before[b - 1].created_time@));
                    lemma_text_lt_trichotomy(kx, before[a].created_time@);
                    if text_lt(before[b - 1].created_time@, before[a].created_time@) {
                        if before[a].created_time@ == kx {
                            lemma_text_lt_trichotomy(kx, before[b - 1].created_time@);
                        } else {
                            lemma_text_lt_transitive(
                                kx,
                                before[b - 1].created_time@,
                                before[a].created_time@,
                            );
                        }
                    }
                } else {
                    assert(now[a] == before[a - 1]);
                    assert(now[b] == before[b - 1]);
                }
            }
        }
        i = i + 1;
    }
    assert(all.take(all.len() as int) =~= all);
    out
}

/// The records of a table in order of creation time (a stable sort).
pub fn sort_table_by_created_time<T>(table: AirtableRecords<T>) -> (r: AirtableRecords<T>)
    ensures
        r.records@.len() == table.records@.len(),
        sorted_by_created(r.records@),
        forall|t: Seq<char>| #[trigger] created_at(r.records@, t) == created_at(table.records@, t),
{
    AirtableRecords { records: sort_by_created_time(table.records) }
}

} // verus!
