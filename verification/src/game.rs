//! Game actions: sessions, their outcomes, and the operations put on chain.

use crate::json;
use crate::json::{Json, JsonView};
use vstd::prelude::*;
use vstd::slice::slice_to_vec;

verus! {

/// One fighter of a player's team.
#[derive(Clone, Copy, Debug, PartialEq, Eq, Structural)]
pub struct TeamUnit {
    pub atk: u64,
    pub def: u64,
    pub hp: u64,
}

/// What kind of action a session is. A kind that the client does not build itself
/// is held by its JSON form.
#[derive(Debug, PartialEq)]
pub enum ActionKind {
    Battle,
    Other(Json),
}

/// What a session commits to before its random number is known. Inputs of a kind
/// that the client does not build itself are held by their JSON form.
#[derive(Debug, PartialEq)]
pub enum ActionInput {
    Battle { monster_id: String, team: Vec<TeamUnit> },
    Other(Json),
}

/// An action session, as its object on the chain holds it.
#[derive(Debug, PartialEq)]
pub struct ActionSession {
    pub session_id: String,
    pub action_type: ActionKind,
    pub inputs: ActionInput,
    pub rules_version: u64,
    pub creator: String,
    pub created_at_unix: u64,
    pub settled: bool,
    pub result: Option<Json>,
}

/// An item that an action yields, and what it sells for.
#[derive(Debug, PartialEq, Eq)]
pub struct ActionDrop {
    pub item_id: String,
    pub count: u64,
    pub price_shc: u64,
}

/// What an action comes to.
#[derive(Debug, PartialEq)]
pub struct ActionOutcome {
    pub result: Json,
    pub drops: Vec<ActionDrop>,
}

/// An operation that a transaction carries.
#[derive(Debug, PartialEq)]
pub enum GameOp {
    ActionStart {
        session_id: String,
        action_type: ActionKind,
        inputs: ActionInput,
        rules_version: u64,
        creator: String,
        created_at_unix: u64,
    },
    ActionSettle {
        session_id: String,
        seed: u64,
        random_block_hash: String,
        claimed: Json,
        drops: Vec<ActionDrop>,
    },
    SellDrop { session_id: String, item_id: String },
}

/// An action kind, mathematically.
pub enum KindView {
    Battle,
    Other(JsonView),
}

/// Action inputs, mathematically.
pub enum InputView {
    Battle { monster_id: Seq<char>, team: Seq<TeamUnit> },
    Other(JsonView),
}

/// An action session, mathematically.
#[verifier::ext_equal]
pub struct SessionView {
    pub session_id: Seq<char>,
    pub action_type: KindView,
    pub inputs: InputView,
    pub rules_version: u64,
    pub creator: Seq<char>,
    pub created_at_unix: u64,
    pub settled: bool,
    pub result: Option<JsonView>,
}

/// A drop, mathematically.
#[verifier::ext_equal]
pub struct DropView {
    pub item_id: Seq<char>,
    pub count: u64,
    pub price_shc: u64,
}

/// An outcome, mathematically.
#[verifier::ext_equal]
pub struct OutcomeView {
    pub result: JsonView,
    pub drops: Seq<DropView>,
}

/// An operation, mathematically.
pub enum OpView {
    ActionStart {
        session_id: Seq<char>,
        action_type: KindView,
        inputs: InputView,
        rules_version: u64,
        creator: Seq<char>,
        created_at_unix: u64,
    },
    ActionSettle {
        session_id: Seq<char>,
        seed: u64,
        random_block_hash: Seq<char>,
        claimed: JsonView,
        drops: Seq<DropView>,
    },
    SellDrop { session_id: Seq<char>, item_id: Seq<char> },
}

/// A list of drops, mathematically.
pub open spec fn drops_view(v: Seq<ActionDrop>) -> Seq<DropView> {
    v.map_values(|d: ActionDrop| d@)
}

impl View for ActionKind {
    type V = KindView;

    open spec fn view(&self) -> KindView {
        match self {
            ActionKind::Battle => KindView::Battle,
            ActionKind::Other(j) => KindView::Other(j@),
        }
    }
}

impl View for ActionInput {
    type V = InputView;

    open spec fn view(&self) -> InputView {
        match self {
            ActionInput::Battle { monster_id, team } => InputView::Battle {
                monster_id: monster_id@,
                team: team@,
            },
            ActionInput::Other(j) => InputView::Other(j@),
        }
    }
}

impl View for ActionSession {
    type V = SessionView;

    open spec fn view(&self) -> SessionView {
        SessionView {
            session_id: self.session_id@,
            action_type: self.action_type@,
            inputs: self.inputs@,
            rules_version: self.rules_version,
            creator: self.creator@,
            created_at_unix: self.created_at_unix,
            settled: self.settled,
            result: json::json_option_view(self.result),
        }
    }
}

impl View for ActionDrop {
    type V = DropView;

    open spec fn view(&self) -> DropView {
        DropView { item_id: self.item_id@, count: self.count, price_shc: self.price_shc }
    }
}

impl View for ActionOutcome {
    type V = OutcomeView;

    open spec fn view(&self) -> OutcomeView {
        OutcomeView { result: self.result@, drops: drops_view(self.drops@) }
    }
}

impl View for GameOp {
    type V = OpView;

    open spec fn view(&self) -> OpView {
        match self {
            GameOp::ActionStart {
                session_id,
                action_type,
                inputs,
                rules_version,
                creator,
                created_at_unix,
            } => OpView::ActionStart {
                session_id: session_id@,
                action_type: action_type@,
                inputs: inputs@,
                rules_version: *rules_version,
                creator: creator@,
                created_at_unix: *created_at_unix,
            },
            GameOp::ActionSettle { session_id, seed, random_block_hash, claimed, drops } =>
                OpView::ActionSettle {
                session_id: session_id@,
                seed: *seed,
                random_block_hash: random_block_hash@,
                claimed: claimed@,
                drops: drops_view(drops@),
            },
            GameOp::SellDrop { session_id, item_id } => OpView::SellDrop {
                session_id: session_id@,
                item_id: item_id@,
            },
        }
    }
}

impl ActionKind {
    /// A separate copy of the kind.
    pub fn copy(&self) -> (r: ActionKind)
        ensures
            r@ == self@,
    {
        match self {
            ActionKind::Battle => ActionKind::Battle,
            ActionKind::Other(j) => ActionKind::Other(j.copy()),
        }
    }
}

impl ActionInput {
    /// A separate copy of the inputs.
    pub fn copy(&self) -> (r: ActionInput)
        ensures
            r@ == self@,
    {
        match self {
            ActionInput::Battle { monster_id, team } => ActionInput::Battle {
                monster_id: monster_id.clone(),
                team: slice_to_vec(team.as_slice()),
            },
            ActionInput::Other(j) => ActionInput::Other(j.copy()),
        }
    }
}

impl ActionDrop {
    /// A separate copy of the drop.
    pub fn copy(&self) -> (r: ActionDrop)
        ensures
            r@ == self@,
    {
        ActionDrop {
            item_id: self.item_id.clone(),
            count: self.count,
            price_shc: self.price_shc,
        }
    }
}

/// Separate copies of drops.
pub fn copy_drops(drops: &Vec<ActionDrop>) -> (r: Vec<ActionDrop>)
    ensures
        drops_view(r@) == drops_view(drops@),
{
    let mut out: Vec<ActionDrop> = Vec::new();
    let mut i: usize = 0;
    while i < drops.len()
        invariant
            i <= drops@.len(),
            out@.len() == i,
            forall|k: int| 0 <= k < i ==> (#[trigger] out@[k])@ == drops@[k]@,
        decreases drops@.len() - i,
    {
        out.push(drops[i].copy());
        i = i + 1;
    }
    assert(drops_view(out@) =~= drops_view(drops@));
    out
}

impl ActionSession {
    /// A separate copy of the session.
    pub fn copy(&self) -> (r: ActionSession)
        ensures
            r@ == self@,
    {
        ActionSession {
            session_id: self.session_id.clone(),
            action_type: self.action_type.copy(),
            inputs: self.inputs.copy(),
            rules_version: self.rules_version,
            creator: self.creator.clone(),
            created_at_unix: self.created_at_unix,
            settled: self.settled,
            result: match &self.result {
                Some(j) => Some(j.copy()),
                None => None,
            },
        }
    }
}

/// A session, a drop and an outcome stand for their fields.
pub proof fn law_sessions_and_outcomes_stand_for_their_fields(
    s: ActionSession,
    d: ActionDrop,
    o: ActionOutcome,
)
    ensures
        s@.session_id == s.session_id@,
        s@.action_type == s.action_type@,
        s@.inputs == s.inputs@,
        s@.rules_version == s.rules_version,
        s@.creator == s.creator@,
        s@.created_at_unix == s.created_at_unix,
        s@.settled == s.settled,
        s@.result is Some <==> s.result is Some,
        s.result matches Some(j) ==> s@.result == Some(j@),
        d@.item_id == d.item_id@,
        d@.count == d.count,
        d@.price_shc == d.price_shc,
        o@.result == o.result@,
        o@.drops.len() == o.drops@.len(),
        forall|i: int| 0 <= i < o.drops@.len() ==> #[trigger] o@.drops[i] == o.drops@[i]@,
{
}

/// A kind, inputs and an operation stand for what they hold.
pub proof fn law_operations_stand_for_what_they_hold(k: ActionKind, i: ActionInput, op: GameOp)
    ensures
        match k {
            ActionKind::Battle => k@ == KindView::Battle,
            ActionKind::Other(j) => k@ == KindView::Other(j@),
        },
        match i {
            ActionInput::Battle { monster_id, team } => i@ == (InputView::Battle {
                monster_id: monster_id@,
                team: team@,
            }),
            ActionInput::Other(j) => i@ == InputView::Other(j@),
        },
        match op {
            GameOp::ActionStart {
                session_id,
                action_type,
                inputs,
                rules_version,
                creator,
                created_at_unix,
            } => op@ == (OpView::ActionStart {
                session_id: session_id@,
                action_type: action_type@,
                inputs: inputs@,
                rules_version,
                creator: creator@,
                created_at_unix,
            }),
            GameOp::ActionSettle { session_id, seed, random_block_hash, claimed, drops } => op@
                matches OpView::ActionSettle {
                session_id: s,
                seed: n,
                random_block_hash: h,
                claimed: c,
                drops: d,
            } && s == session_id@ && n == seed && h == random_block_hash@ && c == claimed@
                && d.len() == drops@.len() && forall|k: int|
                0 <= k < d.len() ==> #[trigger] d[k] == drops@[k]@,
            GameOp::SellDrop { session_id, item_id } => op@ == (OpView::SellDrop {
                session_id: session_id@,
                item_id: item_id@,
            }),
        },
{
}

} // verus!
