//! Item statuses: the states an invoice item goes through, their labels, and the
//! transitions each flow offers from each state.
use vstd::prelude::*;
use vstd::string::StringExecFns;
use crate::text::str_equals;

verus! {

/// Database row of the `statuts` table: one recorded status change of an item.
#[derive(Debug)]
pub struct StatutRow {
    pub id: i64,
    pub facture_id: i64,
    pub facture_item_id: i64,
    pub statut_type: String,
    pub date: String,
    pub seamstress: Option<String>,
    pub created_at: String,
    pub updated_at: String,
}

/// A status change to insert.
#[derive(Debug)]
pub struct StatutInsert {
    pub facture_id: u64,
    pub facture_item_id: u64,
    pub statut_type: String,
    pub date: String,
    pub seamstress: Option<String>,
}

/// A status row as shown to users.
#[derive(Debug)]
pub struct StatutsView {
    pub id: u64,
    pub facture_id: u64,
    pub facture_item_id: u64,
    pub statut_type: String,
    pub date: String,
    pub seamstress: Option<String>,
    pub created_at: String,
    pub updated_at: String,
}

/// The state of an item. The first three are initial states, the two before
/// `Invalid` are final, and `Invalid` marks a history that no longer fits the
/// item's flow.
#[derive(Clone, Debug, PartialEq)]
pub enum State<Date, Seamstress> {
    FloorItem,
    ToOrder,
    ToBeAltered,
    BackFromLocation(Date),
    BackFromSeamstress(Date),
    BackOrder(Date),
    Cancelled(Date),
    ExpectingDelivery(Date),
    GivenToSeamstress(Date, Seamstress),
    Ordered(Date),
    OutForLocation(Date),
    Received(Date),
    TransferredToAlteration(Date),
    WaitingAdjustment(Date),
    WaitingForSeamstress(Date),
    ItemOut(Date),
    LocationOut(Date),
    Invalid(Date),
}

/// A state whose date and seamstress are character sequences.
pub type StateModel = State<Seq<char>, Seq<char>>;

impl View for State<String, String> {
    type V = StateModel;

    open spec fn view(&self) -> StateModel {
        match self {
            State::FloorItem => State::FloorItem,
            State::ToOrder => State::ToOrder,
            State::ToBeAltered => State::ToBeAltered,
            State::BackFromLocation(d) => State::BackFromLocation(d@),
            State::BackFromSeamstress(d) => State::BackFromSeamstress(d@),
            State::BackOrder(d) => State::BackOrder(d@),
            State::Cancelled(d) => State::Cancelled(d@),
            State::ExpectingDelivery(d) => State::ExpectingDelivery(d@),
            State::GivenToSeamstress(d, s) => State::GivenToSeamstress(d@, s@),
            State::Ordered(d) => State::Ordered(d@),
            State::OutForLocation(d) => State::OutForLocation(d@),
            State::Received(d) => State::Received(d@),
            State::TransferredToAlteration(d) => State::TransferredToAlteration(d@),
            State::WaitingAdjustment(d) => State::WaitingAdjustment(d@),
            State::WaitingForSeamstress(d) => State::WaitingForSeamstress(d@),
            State::ItemOut(d) => State::ItemOut(d@),
            State::LocationOut(d) => State::LocationOut(d@),
            State::Invalid(d) => State::Invalid(d@),
        }
    }
}

/// The date a state was entered, for the states that carry one.
pub open spec fn state_date(s: StateModel) -> Option<Seq<char>> {
    match s {
        State::FloorItem | State::ToOrder | State::ToBeAltered => None,
        State::BackFromLocation(d) => Some(d),
        State::BackFromSeamstress(d) => Some(d),
        State::BackOrder(d) => Some(d),
        State::Cancelled(d) => Some(d),
        State::ExpectingDelivery(d) => Some(d),
        State::GivenToSeamstress(d, _) => Some(d),
        State::Ordered(d) => Some(d),
        State::OutForLocation(d) => Some(d),
        State::Received(d) => Some(d),
        State::TransferredToAlteration(d) => Some(d),
        State::WaitingAdjustment(d) => Some(d),
        State::WaitingForSeamstress(d) => Some(d),
        State::ItemOut(d) => Some(d),
        State::LocationOut(d) => Some(d),
        State::Invalid(d) => Some(d),
    }
}

/// The short label of a state.
pub open spec fn state_label(s: StateModel) -> Seq<char> {
    match s {
        State::BackFromLocation(_) => "À retourner au locateur"@,
        State::BackFromSeamstress(_) => "Couture terminé"@,
        State::BackOrder(_) => "Back Order"@,
        State::Cancelled(_) => "Abandonné"@,
        State::ExpectingDelivery(_) => "À recevoir"@,
        State::FloorItem => "Item plancher"@,
        State::GivenToSeamstress(_, _) => "Remis à la couturière"@,
        State::ItemOut(_) => "Sortie"@,
        State::LocationOut(_) => "Retour locateur"@,
        State::Ordered(_) => "Commandé"@,
        State::OutForLocation(_) => "Sortie pour location"@,
        State::Received(_) => "Reçu"@,
        State::ToBeAltered => "À altérer"@,
        State::ToOrder => "À commander"@,
        State::TransferredToAlteration(_) => "Transférer en altération"@,
        State::WaitingAdjustment(_) => "À ajuster"@,
        State::WaitingForSeamstress(_) => "Remis à la couturière"@,
        State::Invalid(_) => "État invalide"@,
    }
}

/// The label of a state together with its date (and seamstress).
pub open spec fn state_label_with_date(s: StateModel) -> Seq<char> {
    match s {
        State::BackFromLocation(d) => "Retour par le client: "@ + d,
        State::BackFromSeamstress(d) => "Couture terminé le: "@ + d,
        State::BackOrder(d) => "Back Order le: "@ + d,
        State::Cancelled(d) => "Annulé le: "@ + d,
        State::ExpectingDelivery(d) => "Livraison attendue le:: "@ + d,
        State::FloorItem => "Item plancher"@,
        State::GivenToSeamstress(d, st) => "Remise à "@ + st + " le:  "@ + d,
        State::ItemOut(d) => "Sortie le: "@ + d,
        State::LocationOut(d) => "Sortie le: "@ + d,
        State::Ordered(d) => "Commande placée le: "@ + d,
        State::OutForLocation(d) => "Sortie en location le: "@ + d,
        State::Received(d) => "Date de réception: "@ + d,
        State::ToBeAltered => "À altérer"@,
        State::ToOrder => "À commander"@,
        State::TransferredToAlteration(d) => "Transfert en altération le: "@ + d,
        State::WaitingAdjustment(d) => "Passé en ajustement le: "@ + d,
        State::WaitingForSeamstress(d) => "Remise à la couturière le: "@ + d,
        State::Invalid(d) => "État invalide le : "@ + d,
    }
}

/// The rank of a state on the dashboard (smaller means more work left).
pub open spec fn state_value(s: StateModel) -> u8 {
    match s {
        State::FloorItem => 4,
        State::ToOrder => 1,
        State::ToBeAltered => 1,
        State::BackFromLocation(_) => 1,
        State::BackFromSeamstress(_) => 4,
        State::BackOrder(_) => 1,
        State::Cancelled(_) => 8,
        State::ExpectingDelivery(_) => 3,
        State::GivenToSeamstress(_, _) => 2,
        State::Ordered(_) => 2,
        State::OutForLocation(_) => 3,
        State::Received(_) => 4,
        State::TransferredToAlteration(_) => 6,
        State::WaitingAdjustment(_) => 1,
        State::WaitingForSeamstress(_) => 2,
        State::ItemOut(_) => 7,
        State::LocationOut(_) => 7,
        State::Invalid(_) => 7,
    }
}

/// The question asked to the user to record a transition (`"Inconnue"` for an
/// unknown transition).
pub open spec fn ask_text(transition: Seq<char>) -> Seq<char> {
    if transition == "RecordingOutDate"@ {
        "Enregistrer une date de sortie"@
    } else if transition == "RecordingTransfertToSeamstressDate"@ {
        "Enregistrer une date de remise à la couturière"@
    } else if transition == "PlaceOrder"@ {
        "Enregister une date de commande"@
    } else if transition == "RecordExpectedDeliveryDate"@ {
        "Enregistrer une date attendue de livraison"@
    } else if transition == "RecordReceptionDate"@ {
        "Enregister une date de réception"@
    } else if transition == "RecordAdjustDate"@ {
        "Enregistrer une date de prise d'ajustements"@
    } else if transition == "RecordingOutForLocationDate"@ {
        "Enregister une date de sortie pour location"@
    } else if transition == "RecordingClientReturnDate"@ {
        "Enregistrer une date retour de location"@
    } else if transition == "TransfertToAlteration"@ {
        "Enregistrer une date de transfert en altération"@
    } else if transition == "RecordingBackFromSeamstressDate"@ {
        "Enregistrer une date de couture terminé"@
    } else if transition == "RecordingBackOrderDate"@ {
        "Enregistrer un avis Back Order"@
    } else if transition == "RecordingCancelDate"@ {
        "Enregistrer une date d'abandon"@
    } else {
        "Inconnue"@
    }
}

/// The flows an item can follow.
pub open spec fn is_known_flow(flow: Seq<char>) -> bool {
    ||| flow == "DressToOrderFlow"@
    ||| flow == "DressFloorItemFlow"@
    ||| flow == "AccessoryItemFlow"@
    ||| flow == "AlterationFlow"@
    ||| flow == "LocationFlow"@
}

/// The transitions a flow offers from a state (`None` for an unknown flow).
pub open spec fn transitions_for(flow: Seq<char>, s: StateModel) -> Option<Seq<Seq<char>>> {
    if flow == "DressToOrderFlow"@ {
        Some(
            match s {
                State::ToOrder => seq!["PlaceOrder"@],
                State::BackOrder(_) => seq!["RecordReceptionDate"@, "RecordingCancelDate"@],
                State::Ordered(_) => seq!["RecordExpectedDeliveryDate"@],
                State::ExpectingDelivery(_) => seq!["RecordReceptionDate"@, "RecordingBackOrderDate"@],
                State::Received(_) => seq![
                    "RecordingOutDate"@,
                    "TransfertToAlteration"@,
                    "RecordingCancelDate"@,
                ],
                _ => Seq::empty(),
            },
        )
    } else if flow == "DressFloorItemFlow"@ {
        Some(
            match s {
                State::FloorItem => seq!["RecordingOutDate"@, "TransfertToAlteration"@],
                State::BackFromSeamstress(_) => seq!["RecordingOutDate"@],
                _ => Seq::empty(),
            },
        )
    } else if flow == "AccessoryItemFlow"@ {
        Some(Seq::empty())
    } else if flow == "AlterationFlow"@ {
        Some(
            match s {
                State::ToBeAltered => seq!["RecordingTransfertToSeamstressDate"@],
                State::GivenToSeamstress(_, _) => seq!["RecordingBackFromSeamstressDate"@],
                State::BackFromSeamstress(_) => seq!["RecordingOutDate"@],
                _ => Seq::empty(),
            },
        )
    } else if flow == "LocationFlow"@ {
        Some(
            match s {
                State::ToOrder => seq!["PlaceOrder"@],
                State::Ordered(_) => seq!["RecordExpectedDeliveryDate"@],
                State::ExpectingDelivery(_) => seq!["RecordReceptionDate"@],
                State::Received(_) => seq!["RecordAdjustDate"@, "RecordingOutForLocationDate"@],
                State::WaitingAdjustment(_) => seq!["RecordingTransfertToSeamstressDate"@],
                State::WaitingForSeamstress(_) => seq!["RecordingBackFromSeamstressDate"@],
                State::BackFromSeamstress(_) => seq!["RecordingOutForLocationDate"@],
                State::OutForLocation(_) => seq!["RecordingClientReturnDate"@],
                State::BackFromLocation(_) => seq!["RecordingOutDate"@],
                _ => Seq::empty(),
            },
        )
    } else {
        None
    }
}

/// The views of a list of static texts.
pub open spec fn texts_view(v: Seq<&'static str>) -> Seq<Seq<char>> {
    v.map_values(|t: &'static str| t@)
}

/// Why a status history could not be read.
#[derive(Debug, Clone, Copy, PartialEq, Eq)]
pub enum StatutError {
    /// The flow type is none of the known flows.
    UnsupportedFlowType,
    /// The flow does not accept this status type.
    InvalidTransition,
    /// A transfer to a seamstress was recorded without naming the seamstress.
    SeamstressRequired,
    /// A status was recorded for an item whose flow is unknown.
    NoStateRecorded(i64, i64),
}

impl State<String, String> {
    /// The date the state was entered, if it carries one.
    pub fn date(&self) -> (r: Option<&str>)
        ensures
            match r {
                Some(d) => state_date(self@) == Some(d@),
                None => state_date(self@) is None,
            },
    {
        match self {
            State::FloorItem | State::ToOrder | State::ToBeAltered => None,
            State::BackFromLocation(date) => Some(date.as_str()),
            State::BackFromSeamstress(date) => Some(date.as_str()),
            State::BackOrder(date) => Some(date.as_str()),
            State::Cancelled(date) => Some(date.as_str()),
            State::ExpectingDelivery(date) => Some(date.as_str()),
            State::GivenToSeamstress(date, _) => Some(date.as_str()),
            State::Ordered(date) => Some(date.as_str()),
            State::OutForLocation(date) => Some(date.as_str()),
            State::Received(date) => Some(date.as_str()),
            State::TransferredToAlteration(date) => Some(date.as_str()),
            State::WaitingAdjustment(date) => Some(date.as_str()),
            State::WaitingForSeamstress(date) => Some(date.as_str()),
            State::ItemOut(date) => Some(date.as_str()),
            State::LocationOut(date) => Some(date.as_str()),
            State::Invalid(date) => Some(date.as_str()),
        }
    }

    /// The short label of the state.
    pub fn label(&self) -> (r: &'static str)
        ensures
            r@ == state_label(self@),
    {
        match self {
            State::BackFromLocation(_) => "À retourner au locateur",
            State::BackFromSeamstress(_) => "Couture terminé",
            State::BackOrder(_) => "Back Order",
            State::Cancelled(_) => "Abandonné",
            State::ExpectingDelivery(_) => "À recevoir",
            State::FloorItem => "Item plancher",
            State::GivenToSeamstress(_, _) => "Remis à la couturière",
            State::ItemOut(_) => "Sortie",
            State::LocationOut(_) => "Retour locateur",
            State::Ordered(_) => "Commandé",
            State::OutForLocation(_) => "Sortie pour location",
            State::Received(_) => "Reçu",
            State::ToBeAltered => "À altérer",
            State::ToOrder => "À commander",
            State::TransferredToAlteration(_) => "Transférer en altération",
            State::WaitingAdjustment(_) => "À ajuster",
            State::WaitingForSeamstress(_) => "Remis à la couturière",
            State::Invalid(_) => "État invalide",
        }
    }

    /// The label of the state with its date.
    pub fn label_with_date(&self) -> (r: String)
        ensures
            r@ == state_label_with_date(self@),
    {
        match self {
            State::BackFromLocation(date) => String::from_str("Retour par le client: ").concat(
                date.as_str(),
            ),
            State::BackFromSeamstress(date) => String::from_str("Couture terminé le: ").concat(
                date.as_str(),
            ),
            State::BackOrder(date) => String::from_str("Back Order le: ").concat(date.as_str()),
            State::Cancelled(date) => String::from_str("Annulé le: ").concat(date.as_str()),
            State::ExpectingDelivery(date) => String::from_str("Livraison attendue le:: ").concat(
                date.as_str(),
            ),
            State::FloorItem => String::from_str("Item plancher"),
            State::GivenToSeamstress(date, st) => String::from_str("Remise à ").concat(
                st.as_str(),
            ).concat(" le:  ").concat(date.as_str()),
            State::ItemOut(date) => String::from_str("Sortie le: ").concat(date.as_str()),
            State::LocationOut(date) => String::from_str("Sortie le: ").concat(date.as_str()),
            State::Ordered(date) => String::from_str("Commande placée le: ").concat(
                date.as_str(),
            ),
            State::OutForLocation(date) => String::from_str("Sortie en location le: ").concat(
                date.as_str(),
            ),
            State::Received(date) => String::from_str("Date de réception: ").concat(
                date.as_str(),
            ),
            State::ToBeAltered => String::from_str("À altérer"),
            State::ToOrder => String::from_str("À commander"),
            State::TransferredToAlteration(date) => String::from_str(
                "Transfert en altération le: ",
            ).concat(date.as_str()),
            State::WaitingAdjustment(date) => String::from_str("Passé en ajustement le: ").concat(
                date.as_str(),
            ),
            State::WaitingForSeamstress(date) => String::from_str(
                "Remise à la couturière le: ",
            ).concat(date.as_str()),
            State::Invalid(date) => String::from_str("État invalide le : ").concat(date.as_str()),
        }
    }

    /// The rank of the state on the dashboard.
    pub fn value(&self) -> (r: u8)
        ensures
            r == state_value(self@),
    {
        match self {
            State::FloorItem => 4,
            State::ToOrder => 1,
            State::ToBeAltered => 1,
            State::BackFromLocation(_) => 1,
            State::BackFromSeamstress(_) => 4,
            State::BackOrder(_) => 1,
            State::Cancelled(_) => 8,
            State::ExpectingDelivery(_) => 3,
            State::GivenToSeamstress(_, _) => 2,
            State::Ordered(_) => 2,
            State::OutForLocation(_) => 3,
            State::Received(_) => 4,
            State::TransferredToAlteration(_) => 6,
            State::WaitingAdjustment(_) => 1,
            State::WaitingForSeamstress(_) => 2,
            State::ItemOut(_) => 7,
            State::LocationOut(_) => 7,
            State::Invalid(_) => 7,
        }
    }

    /// The question asked to record `transition`.
    pub fn ask(transition: &str) -> (r: &'static str)
        ensures
            r@ == ask_text(transition@),
    {
        if str_equals(transition, "RecordingOutDate") {
            "Enregistrer une date de sortie"
        } else if str_equals(transition, "RecordingTransfertToSeamstressDate") {
            "Enregistrer une date de remise à la couturière"
        } else if str_equals(transition, "PlaceOrder") {
            "Enregister une date de commande"
        } else if str_equals(transition, "RecordExpectedDeliveryDate") {
            "Enregistrer une date attendue de livraison"
        } else if str_equals(transition, "RecordReceptionDate") {
            "Enregister une date de réception"
        } else if str_equals(transition, "RecordAdjustDate") {
            "Enregistrer une date de prise d'ajustements"
        } else if str_equals(transition, "RecordingOutForLocationDate") {
            "Enregister une date de sortie pour location"
        } else if str_equals(transition, "RecordingClientReturnDate") {
            "Enregistrer une date retour de location"
        } else if str_equals(transition, "TransfertToAlteration") {
            "Enregistrer une date de transfert en altération"
        } else if str_equals(transition, "RecordingBackFromSeamstressDate") {
            "Enregistrer une date de couture terminé"
        } else if str_equals(transition, "RecordingBackOrderDate") {
            "Enregistrer un avis Back Order"
        } else if str_equals(transition, "RecordingCancelDate") {
            "Enregistrer une date d'abandon"
        } else {
            "Inconnue"
        }
    }
}

/// The transitions a user can record.
pub enum StatutTransition {
    PlaceOrder,
    RecordExpectedDeliveryDate,
    RecordReceptionDate,
    RecordingBackFromSeamstressDate,
    RecordingClientReturnDate,
    RecordingCancelDate,
    RecordingOutDate,
    RecordingOutForLocationDate,
    RecordingBackOrderDate,
    RecordingTransfertToSeamstressDate,
    TransfertToAlteration,
}

/// The flows an item can follow.
pub enum StateType {
    AlterationFlow,
    LocationFlow,
    AccessoryItemFlow,
    DressFloorItemFlow,
    DressToOrderFlow,
}

/// The state of one item: where it is, where it has been, and its flow.
#[derive(Debug)]
pub struct StateView {
    pub current_state: State<String, String>,
    pub previous_states: Vec<State<String, String>>,
    pub item_flow: String,
}

/// The abstract state of an item.
pub struct StateViewModel {
    pub current: StateModel,
    pub previous: Seq<StateModel>,
    pub flow: Seq<char>,
}

impl View for StateView {
    type V = StateViewModel;

    open spec fn view(&self) -> StateViewModel {
        StateViewModel {
            current: self.current_state@,
            previous: self.previous_states@.map_values(|s: State<String, String>| s@),
            flow: self.item_flow@,
        }
    }
}

/// A copy of a state.
pub fn copy_state(s: &State<String, String>) -> (r: State<String, String>)
    ensures
        r@ == s@,
{
    match s {
        State::FloorItem => State::FloorItem,
        State::ToOrder => State::ToOrder,
        State::ToBeAltered => State::ToBeAltered,
        State::BackFromLocation(d) => State::BackFromLocation(d.clone()),
        State::BackFromSeamstress(d) => State::BackFromSeamstress(d.clone()),
        State::BackOrder(d) => State::BackOrder(d.clone()),
        State::Cancelled(d) => State::Cancelled(d.clone()),
        State::ExpectingDelivery(d) => State::ExpectingDelivery(d.clone()),
        State::GivenToSeamstress(d, st) => State::GivenToSeamstress(d.clone(), st.clone()),
        State::Ordered(d) => State::Ordered(d.clone()),
        State::OutForLocation(d) => State::OutForLocation(d.clone()),
        State::Received(d) => State::Received(d.clone()),
        State::TransferredToAlteration(d) => State::TransferredToAlteration(d.clone()),
        State::WaitingAdjustment(d) => State::WaitingAdjustment(d.clone()),
        State::WaitingForSeamstress(d) => State::WaitingForSeamstress(d.clone()),
        State::ItemOut(d) => State::ItemOut(d.clone()),
        State::LocationOut(d) => State::LocationOut(d.clone()),
        State::Invalid(d) => State::Invalid(d.clone()),
    }
}

impl StateView {
    /// A copy of this state view.
    pub fn copy(&self) -> (r: StateView)
        ensures
            r@ == self@,
    {
        let mut previous: Vec<State<String, String>> = Vec::new();
        let mut i: usize = 0;
        while i < self.previous_states.len()
            invariant
                i <= self.previous_states.len(),
                previous@.len() == i,
                forall|j: int| 0 <= j < i ==> #[trigger] previous@[j]@ == self.previous_states@[j]@,
            decreases self.previous_states.len() - i,
        {
            previous.push(copy_state(&self.previous_states[i]));
            i = i + 1;
        }
        let r = StateView {
            current_state: copy_state(&self.current_state),
            previous_states: previous,
            item_flow: self.item_flow.clone(),
        };
        assert(r@.previous =~= self@.previous);
        r
    }

    /// The transitions that the item's flow offers from its current state;
    /// an error for an unknown flow.
    pub fn available_transitions(&self) -> (r: Result<Vec<&'static str>, StatutError>)
        ensures
            match r {
                Ok(v) => transitions_for(self.item_flow@, self.current_state@) == Some(
                    texts_view(v@),
                ),
                Err(e) => transitions_for(self.item_flow@, self.current_state@) is None && e
                    == StatutError::UnsupportedFlowType,
            },
    {
        let flow = self.item_flow.as_str();
        let r: Vec<&'static str> = if str_equals(flow, "DressToOrderFlow") {
            match &self.current_state {
                State::ToOrder => vec!["PlaceOrder"],
                State::BackOrder(_) => vec!["RecordReceptionDate", "RecordingCancelDate"],
                State::Ordered(_) => vec!["RecordExpectedDeliveryDate"],
                State::ExpectingDelivery(_) => vec!["RecordReceptionDate", "RecordingBackOrderDate"],
                State::Received(_) => vec![
                    "RecordingOutDate",
                    "TransfertToAlteration",
                    "RecordingCancelDate",
                ],
                _ => vec![],
            }
        } else if str_equals(flow, "DressFloorItemFlow") {
            match &self.current_state {
                State::FloorItem => vec!["RecordingOutDate", "TransfertToAlteration"],
                State::BackFromSeamstress(_) => vec!["RecordingOutDate"],
                _ => vec![],
            }
        } else if str_equals(flow, "AccessoryItemFlow") {
            vec![]
        } else if str_equals(flow, "AlterationFlow") {
            match &self.current_state {
                State::ToBeAltered => vec!["RecordingTransfertToSeamstressDate"],
                State::GivenToSeamstress(_, _) => vec!["RecordingBackFromSeamstressDate"],
                State::BackFromSeamstress(_) => vec!["RecordingOutDate"],
                _ => vec![],
            }
        } else if str_equals(flow, "LocationFlow") {
            match &self.current_state {
                State::ToOrder => vec!["PlaceOrder"],
                State::Ordered(_) => vec!["RecordExpectedDeliveryDate"],
                State::ExpectingDelivery(_) => vec!["RecordReceptionDate"],
                State::Received(_) => vec!["RecordAdjustDate", "RecordingOutForLocationDate"],
                State::WaitingAdjustment(_) => vec!["RecordingTransfertToSeamstressDate"],
                State::WaitingForSeamstress(_) => vec!["RecordingBackFromSeamstressDate"],
                State::BackFromSeamstress(_) => vec!["RecordingOutForLocationDate"],
                State::OutForLocation(_) => vec!["RecordingClientReturnDate"],
                State::BackFromLocation(_) => vec!["RecordingOutDate"],
                _ => vec![],
            }
        } else {
            return Err(StatutError::UnsupportedFlowType);
        };
        assert(transitions_for(self.item_flow@, self.current_state@) == Some(texts_view(r@)));
        Ok(r)
    }
}

} // verus!
