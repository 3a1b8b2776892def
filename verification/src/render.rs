//! The render model of the page: what is drawn, computed from the state
//! alone. The browser shell turns this model into markup verbatim; every
//! choice — indicator color, button set, disabling — is made here.

use vstd::prelude::*;

use crate::model::{Server, ServerAction, ServerStatuses, Status};
use crate::page::StatusPage;

verus! {

/// The indicator color for a status: green when running, amber while a
/// transition is underway, red otherwise.
pub open spec fn spec_color(st: Status) -> Seq<char> {
    match st {
        Status::Running => "#2ecc40"@,
        Status::Starting => "#ff851b"@,
        Status::Updating => "#ff851b"@,
        _ => "#ff4136"@,
    }
}

pub fn status_color(st: &Status) -> (r: &'static str)
    ensures
        r@ == spec_color(*st),
{
    match st {
        Status::Running => "#2ecc40",
        Status::Starting => "#ff851b",
        Status::Updating => "#ff851b",
        _ => "#ff4136",
    }
}

/// One action button on a server card. Its label is the action's name;
/// it is disabled exactly while a request is in flight.
#[derive(PartialEq, Eq, Structural, Clone, Copy, Debug)]
pub struct ActionButton {
    pub action: ServerAction,
    pub disabled: bool,
}

/// The buttons offered for a server in status `st`: Start and Update when
/// it is stopped, Stop when it is running, none during any transition or
/// while the status is unknown. All are disabled while a request is in
/// flight.
pub open spec fn spec_buttons(st: Status, disabled: bool) -> Seq<ActionButton> {
    match st {
        Status::Stopped => seq![
            ActionButton { action: ServerAction::Start, disabled },
            ActionButton { action: ServerAction::Update, disabled },
        ],
        Status::Running => seq![ActionButton { action: ServerAction::Stop, disabled }],
        _ => Seq::empty(),
    }
}

pub fn status_buttons(st: &Status, disabled: bool) -> (r: Vec<ActionButton>)
    ensures
        r@ == spec_buttons(*st, disabled),
{
    match st {
        Status::Stopped => {
            let mut v: Vec<ActionButton> = Vec::new();
            v.push(ActionButton { action: ServerAction::Start, disabled });
            v.push(ActionButton { action: ServerAction::Update, disabled });
            proof {
                assert(v@ =~= spec_buttons(*st, disabled));
            }
            v
        },
        Status::Running => {
            let mut v: Vec<ActionButton> = Vec::new();
            v.push(ActionButton { action: ServerAction::Stop, disabled });
            proof {
                assert(v@ =~= spec_buttons(*st, disabled));
            }
            v
        },
        _ => {
            let v: Vec<ActionButton> = Vec::new();
            proof {
                assert(v@ =~= spec_buttons(*st, disabled));
            }
            v
        },
    }
}

/// One card of the page: a server, its status as last reported, and the
/// action buttons offered for it. Name, label and color follow from the
/// first two fields through [`Server::name`], [`Status::label`] and
/// [`status_color`].
pub struct ServerCard {
    pub server: Server,
    pub status: Status,
    pub buttons: Vec<ActionButton>,
}

/// The card drawn for server `s` shows exactly the reported status and
/// the buttons for it, disabled while a request is in flight.
pub open spec fn card_for(
    card: ServerCard,
    statuses: ServerStatuses,
    in_flight: bool,
    s: Server,
) -> bool {
    &&& card.server == s
    &&& card.status == statuses.spec_get(s)
    &&& card.buttons@ == spec_buttons(statuses.spec_get(s), in_flight)
}

/// What the whole page shows: a fixed title, the status line, and one
/// card per known server.
pub struct PageView {
    pub title: String,
    pub status_line: String,
    pub cards: Vec<ServerCard>,
}

impl StatusPage {
    /// One card per known server, each reflecting the current statuses
    /// map and the in-flight flag.
    pub fn server_cards(&self) -> (cards: Vec<ServerCard>)
        ensures
            cards@.len() == 2,
            card_for(cards@[0], self.server_statuses, self.in_flight, Server::Default),
            card_for(cards@[1], self.server_statuses, self.in_flight, Server::Rotis),
    {
        let disabled = self.in_flight;
        let mut cards: Vec<ServerCard> = Vec::new();
        let d = self.server_statuses.get(&Server::Default);
        cards.push(ServerCard {
            server: Server::Default,
            status: d,
            buttons: status_buttons(&d, disabled),
        });
        let r = self.server_statuses.get(&Server::Rotis);
        cards.push(ServerCard {
            server: Server::Rotis,
            status: r,
            buttons: status_buttons(&r, disabled),
        });
        cards
    }

    /// The full render model for the current state.
    pub fn view(&self) -> (v: PageView)
        ensures
            v.title@ == "Valheim Server Control"@,
            v.status_line@ == self.body@,
            v.cards@.len() == 2,
            card_for(v.cards@[0], self.server_statuses, self.in_flight, Server::Default),
            card_for(v.cards@[1], self.server_statuses, self.in_flight, Server::Rotis),
    {
        PageView {
            title: String::from_str("Valheim Server Control"),
            status_line: self.body.clone(),
            cards: self.server_cards(),
        }
    }
}

} // verus!
