//! Reading the configuration records: note templates, seamstresses, clauses,
//! signatures, event types and the extra charges for large sizes.
use vstd::prelude::*;
use crate::models::config::{ConfigRow, ExtraLargeAmounts, NoteTemplate};
use crate::text::{has_prefix, parse_i64, parsed_i64, starts_with, str_equals};

verus! {

/// The values of the records of type `t`, in order.
pub open spec fn values_of_type(rows: Seq<ConfigRow>, t: Seq<char>) -> Seq<String>
    decreases rows.len(),
{
    if rows.len() == 0 {
        Seq::empty()
    } else {
        let rest = values_of_type(rows.drop_last(), t);
        if rows.last().config_type@ == t {
            rest.push(rows.last().value)
        } else {
            rest
        }
    }
}

/// The records whose type starts with "formule-type", in order.
pub open spec fn template_rows(rows: Seq<ConfigRow>) -> Seq<ConfigRow>
    decreases rows.len(),
{
    if rows.len() == 0 {
        Seq::empty()
    } else {
        let rest = template_rows(rows.drop_last());
        if has_prefix(rows.last().config_type@, "formule-type"@) {
            rest.push(rows.last())
        } else {
            rest
        }
    }
}

/// The values of the records of type `config_type`, in order (the seamstresses,
/// the clauses, the signatures or the event types).
pub fn config_values(rows: Vec<ConfigRow>, config_type: &str) -> (r: Vec<String>)
    ensures
        r@ == values_of_type(rows@, config_type@),
{
    let ghost all = rows@;
    let len0 = rows.len();
    let mut out: Vec<String> = Vec::new();
    let mut i: usize = 0;
    let mut rest = crate::services::factures::reversed(rows);
    while rest.len() > 0
        invariant
            i + rest@.len() == all.len(),
            all.len() == len0,
            forall|j: int| 0 <= j < rest@.len() ==> rest@[j] == all[all.len() - 1 - j],
            out@ == values_of_type(all.take(i as int), config_type@),
        decreases rest.len(),
    {
        let row = rest.pop().unwrap();
        assert(row == all[i as int]);
        assert(all.take(i + 1).drop_last() =~= all.take(i as int));
        assert(all.take(i + 1).last() == row);
        if str_equals(row.config_type.as_str(), config_type) {
            out.push(row.value);
        }
        i = i + 1;
    }
    assert(all.take(all.len() as int) =~= all);
    out
}

/// The seamstresses named in the configuration.
pub fn seamstresses_from(rows: Vec<ConfigRow>) -> (r: Vec<String>)
    ensures
        r@ == values_of_type(rows@, "couturiere"@),
{
    config_values(rows, "couturiere")
}

/// The clauses printed on invoices.
pub fn clauses_from(rows: Vec<ConfigRow>) -> (r: Vec<String>)
    ensures
        r@ == values_of_type(rows@, "clause-facture"@),
{
    config_values(rows, "clause-facture")
}

/// The signatures printed on invoices.
pub fn signatures_from(rows: Vec<ConfigRow>) -> (r: Vec<String>)
    ensures
        r@ == values_of_type(rows@, "signature-facture"@),
{
    config_values(rows, "signature-facture")
}

/// The types of events.
pub fn event_types_from(rows: Vec<ConfigRow>) -> (r: Vec<String>)
    ensures
        r@ == values_of_type(rows@, "event-type"@),
{
    config_values(rows, "event-type")
}

/// The note templates: the records whose type starts with "formule-type", with
/// their type, key and value.
pub fn note_templates_from(rows: Vec<ConfigRow>) -> (r: Vec<NoteTemplate>)
    ensures
        r@.len() == template_rows(rows@).len(),
        forall|j: int|
            0 <= j < r@.len() ==> #[trigger] r@[j].note_type == template_rows(rows@)[j].config_type
                && r@[j].key == template_rows(rows@)[j].key && r@[j].value == template_rows(
                rows@,
            )[j].value,
{
    let ghost all = rows@;
    let len0 = rows.len();
    let mut out: Vec<NoteTemplate> = Vec::new();
    let mut i: usize = 0;
    let mut rest = crate::services::factures::reversed(rows);
    while rest.len() > 0
        invariant
            i + rest@.len() == all.len(),
            all.len() == len0,
            forall|j: int| 0 <= j < rest@.len() ==> rest@[j] == all[all.len() - 1 - j],
            out@.len() == template_rows(all.take(i as int)).len(),
            forall|j: int|
                0 <= j < out@.len() ==> #[trigger] out@[j].note_type == template_rows(
                    all.take(i as int),
                )[j].config_type && out@[j].key == template_rows(all.take(i as int))[j].key
                    && out@[j].value == template_rows(all.take(i as int))[j].value,
        decreases rest.len(),
    {
        let row = rest.pop().unwrap();
        assert(row == all[i as int]);
        assert(all.take(i + 1).drop_last() =~= all.take(i as int));
        assert(all.take(i + 1).last() == row);
        let ghost old_out = out@;
        let ghost tr_old = template_rows(all.take(i as int));
        let ghost tr_new = template_rows(all.take(i + 1));
        if starts_with(row.config_type.as_str(), "formule-type") {
            assert(tr_new == tr_old.push(row));
            out.push(NoteTemplate { note_type: row.config_type, key: row.key, value: row.value });
            assert forall|j: int| 0 <= j < out@.len() implies #[trigger] out@[j].note_type
                == tr_new[j].config_type && out@[j].key == tr_new[j].key && out@[j].value
                == tr_new[j].value by {
                if j < old_out.len() {
                    assert(out@[j] == old_out[j]);
                }
            }
        }
        i = i + 1;
    }
    assert(all.take(all.len() as int) =~= all);
    out
}

/// Why the large-size charges could not be read.
#[derive(Debug, Clone, Copy, PartialEq, Eq)]
pub enum ConfigError {
    /// A charge is not an integer.
    InvalidAmount,
    /// No charge is configured for wedding dresses.
    MissingWeddingAmount,
    /// No charge is configured for the other dresses.
    MissingOthersAmount,
}

/// The large-size records seen so far: the last charge read for wedding
/// dresses and for the others, or the first charge that is not an integer.
pub open spec fn large_size_scan(rows: Seq<ConfigRow>) -> Result<(Option<int>, Option<int>), ConfigError>
    decreases rows.len(),
{
    if rows.len() == 0 {
        Ok((None, None))
    } else {
        match large_size_scan(rows.drop_last()) {
            Ok(acc) => {
                let row = rows.last();
                if row.config_type@ == "extra-taille-forte"@ && row.key@ == "robes-de-mariées"@ {
                    match parsed_i64(row.value@) {
                        Some(v) => Ok((Some(v), acc.1)),
                        None => Err(ConfigError::InvalidAmount),
                    }
                } else if row.config_type@ == "extra-taille-forte"@ && row.key@
                    == "autres-robes"@ {
                    match parsed_i64(row.value@) {
                        Some(v) => Ok((acc.0, Some(v))),
                        None => Err(ConfigError::InvalidAmount),
                    }
                } else {
                    Ok(acc)
                }
            },
            Err(e) => Err(e),
        }
    }
}

/// The large-size charges that the records configure.
pub open spec fn large_size_amounts(rows: Seq<ConfigRow>) -> Result<(int, int), ConfigError> {
    match large_size_scan(rows) {
        Ok(acc) => match acc.0 {
            Some(w) => match acc.1 {
                Some(o) => Ok((w, o)),
                None => Err(ConfigError::MissingOthersAmount),
            },
            None => Err(ConfigError::MissingWeddingAmount),
        },
        Err(e) => Err(e),
    }
}

proof fn lemma_scan_error_persists(rows: Seq<ConfigRow>, n: int)
    requires
        0 <= n <= rows.len(),
        large_size_scan(rows.take(n)) is Err,
    ensures
        large_size_scan(rows) == large_size_scan(rows.take(n)),
    decreases rows.len() - n,
{
    if n == rows.len() {
        assert(rows.take(n) =~= rows);
    } else {
        assert(rows.take(n + 1).drop_last() =~= rows.take(n));
        lemma_scan_error_persists(rows, n + 1);
    }
}

/// The extra charges for large sizes: the records of type "extra-taille-forte"
/// with key "robes-de-mariées" (wedding dresses) and "autres-robes" (the
/// others); the last record of each counts.
pub fn extra_large_amounts_from(rows: &Vec<ConfigRow>) -> (r: Result<ExtraLargeAmounts, ConfigError>)
    ensures
        match r {
            Ok(a) => large_size_amounts(rows@) == Ok::<(int, int), ConfigError>(
                (a.wedding as int, a.others as int),
            ),
            Err(e) => large_size_amounts(rows@) == Err::<(int, int), ConfigError>(e),
        },
{
    let mut wedding: Option<i64> = None;
    let mut others: Option<i64> = None;
    let mut i: usize = 0;
    while i < rows.len()
        invariant
            i <= rows@.len(),
            large_size_scan(rows@.take(i as int)) == Ok::<
                (Option<int>, Option<int>),
                ConfigError,
            >(
                (
                    match wedding {
                        Some(w) => Some(w as int),
                        None => None,
                    },
                    match others {
                        Some(o) => Some(o as int),
                        None => None,
                    },
                ),
            ),
        decreases rows.len() - i,
    {
        let row = &rows[i];
        assert(rows@.take(i + 1).drop_last() =~= rows@.take(i as int));
        assert(rows@.take(i + 1).last() == *row);
        if str_equals(row.config_type.as_str(), "extra-taille-forte") && str_equals(
            row.key.as_str(),
            "robes-de-mariées",
        ) {
            match parse_i64(row.value.as_str()) {
                Some(v) => {
                    wedding = Some(v);
                },
                None => {
                    proof {
                        lemma_scan_error_persists(rows@, i + 1);
                    }
                    return Err(ConfigError::InvalidAmount);
                },
            }
        } else if str_equals(row.config_type.as_str(), "extra-taille-forte") && str_equals(
            row.key.as_str(),
            "autres-robes",
        ) {
            match parse_i64(row.value.as_str()) {
                Some(v) => {
                    others = Some(v);
                },
                None => {
                    proof {
                        lemma_scan_error_persists(rows@, i + 1);
                    }
                    return Err(ConfigError::InvalidAmount);
                },
            }
        }
        i = i + 1;
    }
    assert(rows@.take(rows@.len() as int) =~= rows@);
    match wedding {
        Some(w) => match others {
            Some(o) => Ok(ExtraLargeAmounts { wedding: w, others: o }),
            None => Err(ConfigError::MissingOthersAmount),
        },
        None => Err(ConfigError::MissingWeddingAmount),
    }
}

} // verus!
