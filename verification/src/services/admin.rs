//! The administration page and its reports.
use vstd::prelude::*;
use crate::models::FactureAndClient;
use crate::models::clients::ClientView;
use crate::models::factures::FactureView;
use crate::services::factures::{reversed, swap_removed};
use crate::text::{signed_decimal, signed_decimal_string};
use vstd::string::StringExecFns;

verus! {

/// One payment of the payments report.
pub struct PaymentReportRecord {
    pub facture_id: i64,
    pub paper_ref: Option<String>,
    pub facture_type: String,
    pub date: Option<String>,
    pub amount: String,
    pub payment_type: String,
    pub cancelled: u8,
    pub transaction_url: String,
}

/// One invoice of the invoices report.
pub struct FactureReportRecord {
    pub facture_id: i64,
    pub paper_ref: Option<String>,
    pub date: Option<String>,
    pub balance: String,
    pub client_name: String,
}

/// The address of an invoice's transactions page under the server's external
/// address.
pub open spec fn transactions_url(external_url: Seq<char>, facture_id: int) -> Seq<char> {
    external_url + "/factures/"@ + signed_decimal(facture_id) + "/transactions"@
}

/// The address of an invoice's transactions page, as the payments report links
/// it.
pub fn transaction_url(external_url: &str, facture_id: i64) -> (r: String)
    ensures
        r@ == transactions_url(external_url@, facture_id as int),
{
    let id = signed_decimal_string(facture_id);
    let r = external_url.to_string().concat("/factures/").concat(id.as_str()).concat(
        "/transactions",
    );
    assert(r@ =~= transactions_url(external_url@, facture_id as int));
    r
}

/// The position of the first client with id `id`, or -1.
pub open spec fn first_client_index(clients: Seq<ClientView>, id: u64) -> int
    decreases clients.len(),
{
    if clients.len() == 0 {
        -1
    } else if clients[0].id == id {
        0
    } else {
        let r = first_client_index(clients.drop_first(), id);
        if r < 0 {
            -1
        } else {
            r + 1
        }
    }
}

/// Taking, for each client id of `ids` in order, the first remaining client
/// with that id out of `clients`: the clients taken and those left; or the
/// position of the first id with no client left.
pub open spec fn take_clients(ids: Seq<u64>, clients: Seq<ClientView>) -> Result<
    (Seq<ClientView>, Seq<ClientView>),
    int,
>
    decreases ids.len(),
{
    if ids.len() == 0 {
        Ok((Seq::empty(), clients))
    } else {
        match take_clients(ids.drop_last(), clients) {
            Ok(state) => {
                let idx = first_client_index(state.1, ids.last());
                if idx < 0 {
                    Err(ids.len() - 1)
                } else {
                    Ok((state.0.push(state.1[idx]), swap_removed(state.1, idx)))
                }
            },
            Err(e) => Err(e),
        }
    }
}

/// The client ids of invoices.
pub open spec fn facture_client_ids(factures: Seq<FactureView>) -> Seq<u64> {
    factures.map_values(|f: FactureView| f.client_id)
}

/// An invoice whose client is not among the loaded clients.
#[derive(Debug, Clone, Copy, PartialEq, Eq)]
pub struct ClientNotFound {
    pub facture_id: u64,
    pub client_id: u64,
}

pub(crate) fn find_client(clients: &Vec<ClientView>, id: u64) -> (r: Option<usize>)
    ensures
        match r {
            Some(i) => first_client_index(clients@, id) == i && i < clients@.len(),
            None => first_client_index(clients@, id) < 0,
        },
{
    let mut i: usize = 0;
    while i < clients.len()
        invariant
            i <= clients@.len(),
            forall|j: int| 0 <= j < i ==> #[trigger] clients@[j].id != id,
        decreases clients.len() - i,
    {
        if clients[i].id == id {
            proof {
                lemma_first_client_at(clients@, id, i as int);
            }
            return Some(i);
        }
        i = i + 1;
    }
    proof {
        lemma_first_client_none(clients@, id);
    }
    None
}

proof fn lemma_first_client_at(s: Seq<ClientView>, id: u64, i: int)
    requires
        0 <= i < s.len(),
        s[i].id == id,
        forall|j: int| 0 <= j < i ==> #[trigger] s[j].id != id,
    ensures
        first_client_index(s, id) == i,
    decreases i,
{
    if i > 0 {
        assert forall|j: int| 0 <= j < i - 1 implies #[trigger] s.drop_first()[j].id != id by {
            assert(s.drop_first()[j] == s[j + 1]);
        }
        assert(s[0].id != id);
        lemma_first_client_at(s.drop_first(), id, i - 1);
    }
}

proof fn lemma_first_client_none(s: Seq<ClientView>, id: u64)
    requires
        forall|j: int| 0 <= j < s.len() ==> #[trigger] s[j].id != id,
    ensures
        first_client_index(s, id) < 0,
    decreases s.len(),
{
    if s.len() > 0 {
        assert forall|j: int| 0 <= j < s.len() - 1 implies #[trigger] s.drop_first()[j].id != id by {
            assert(s.drop_first()[j] == s[j + 1]);
        }
        lemma_first_client_none(s.drop_first(), id);
    }
}

proof fn lemma_take_clients_error_persists(ids: Seq<u64>, clients: Seq<ClientView>, n: int)
    requires
        0 <= n <= ids.len(),
        take_clients(ids.take(n), clients) is Err,
    ensures
        take_clients(ids, clients) == take_clients(ids.take(n), clients),
    decreases ids.len() - n,
{
    if n == ids.len() {
        assert(ids.take(n) =~= ids);
    } else {
        assert(ids.take(n + 1).drop_last() =~= ids.take(n));
        lemma_take_clients_error_persists(ids, clients, n + 1);
    }
}

/// Each invoice with its client, for the administration page: the first
/// remaining client with the invoice's client id is taken out of `clients`
/// (the last remaining client takes its place). An error names the first
/// invoice whose client is missing.
#[verifier::loop_isolation(false)]
pub fn pair_factures_with_clients(factures: Vec<FactureView>, clients: Vec<ClientView>) -> (r:
    Result<Vec<FactureAndClient>, ClientNotFound>)
    ensures
        match r {
            Ok(v) => take_clients(facture_client_ids(factures@), clients@) matches Ok(state)
                && v@.len() == factures@.len() && forall|i: int|
                0 <= i < v@.len() ==> #[trigger] v@[i].facture == factures@[i] && v@[i].client
                    == state.0[i],
            Err(e) => take_clients(facture_client_ids(factures@), clients@) matches Err(i) && 0
                <= i < factures@.len() && e.facture_id == factures@[i].id && e.client_id
                == factures@[i].client_id,
        },
{
    let ghost fs = factures@;
    let ghost ids = facture_client_ids(factures@);
    let ghost clients0 = clients@;
    let mut clients = clients;
    let mut rev = reversed(factures);
    let mut out: Vec<FactureAndClient> = Vec::new();
    assert(ids.take(0) =~= Seq::<u64>::empty());
    while rev.len() > 0
        invariant
            out@.len() + rev@.len() == fs.len(),
            ids == facture_client_ids(fs),
            forall|i: int| 0 <= i < rev@.len() ==> rev@[i] == fs[fs.len() - 1 - i],
            take_clients(ids.take(out@.len() as int), clients0) matches Ok(state) && state.1
                == clients@ && state.0.len() == out@.len() && forall|i: int|
                0 <= i < out@.len() ==> #[trigger] out@[i].facture == fs[i] && out@[i].client
                    == state.0[i],
        decreases rev.len(),
    {
        let ghost n = out@.len() as int;
        let facture = rev.pop().unwrap();
        assert(facture == fs[n]);
        assert(ids.take(n + 1).drop_last() =~= ids.take(n));
        assert(ids.take(n + 1).last() == facture.client_id);
        match find_client(&clients, facture.client_id) {
            Some(idx) => {
                let ghost before = clients@;
                let client = clients.swap_remove(idx);
                assert(clients@ =~= swap_removed(before, idx as int));
                out.push(FactureAndClient { facture, client });
            },
            None => {
                proof {
                    lemma_take_clients_error_persists(ids, clients0, n + 1);
                }
                return Err(ClientNotFound { facture_id: facture.id, client_id: facture.client_id });
            },
        }
    }
    assert(ids.take(fs.len() as int) =~= ids);
    Ok(out)
}

} // verus!
