//! The client's settings, and its battle simulator.

use crate::rpc;
use crate::text;
use crate::text::parse_number;
use vstd::prelude::*;

verus! {

/// The chain number of the development network, which is the default.
pub const DEFAULT_CHAIN_ID: u64 = 10088;

/// How many frames lie between two looks at the watched object by default.
pub const DEFAULT_SYNC_TICKS: u32 = 60;

/// How to reach the chain, and what to watch on it.
#[derive(Debug, PartialEq, Eq)]
pub struct ChainConfig {
    pub rpc_url: String,
    pub token: Option<String>,
    /// The object that is watched, if any.
    pub object_id: Option<String>,
    /// The object is asked for once in that many frames.
    pub sync_every_ticks: u32,
    /// The number of the chain, which every transaction carries.
    pub chain_id: u64,
}

/// How to reach the chain, mathematically.
pub struct ConfigView {
    pub rpc_url: Seq<char>,
    pub token: Option<Seq<char>>,
    pub object_id: Option<Seq<char>>,
    pub sync_every_ticks: u32,
    pub chain_id: u64,
}

impl View for ChainConfig {
    type V = ConfigView;

    open spec fn view(&self) -> ConfigView {
        ConfigView {
            rpc_url: self.rpc_url@,
            token: rpc::text_option_view(self.token),
            object_id: rpc::text_option_view(self.object_id),
            sync_every_ticks: self.sync_every_ticks,
            chain_id: self.chain_id,
        }
    }
}

/// A separate copy of an optional text.
fn copy_text(s: &Option<String>) -> (r: Option<String>)
    ensures
        rpc::text_option_view(r) == rpc::text_option_view(*s),
{
    match s {
        Some(s) => Some(s.clone()),
        None => None,
    }
}

impl Clone for ChainConfig {
    fn clone(&self) -> (r: ChainConfig)
        ensures
            r@ == self@,
    {
        ChainConfig {
            rpc_url: self.rpc_url.clone(),
            token: copy_text(&self.token),
            object_id: copy_text(&self.object_id),
            sync_every_ticks: self.sync_every_ticks,
            chain_id: self.chain_id,
        }
    }
}

impl ConfigView {
    /// The settings of a client that nothing else is said to: a node on this machine,
    /// and nothing to watch.
    pub open spec fn standard() -> ConfigView {
        ConfigView {
            rpc_url: "http://127.0.0.1:8545"@,
            token: None,
            object_id: None,
            sync_every_ticks: DEFAULT_SYNC_TICKS,
            chain_id: DEFAULT_CHAIN_ID,
        }
    }

    /// The settings with some of them replaced. A number that cannot be read counts as
    /// the default.
    pub open spec fn overridden(self, o: OverridesView) -> ConfigView {
        ConfigView {
            rpc_url: match o.rpc_url {
                Some(url) => url,
                None => self.rpc_url,
            },
            token: match o.token {
                Some(token) => Some(token),
                None => self.token,
            },
            object_id: match o.object_id {
                Some(object_id) => Some(object_id),
                None => self.object_id,
            },
            chain_id: match o.chain_id {
                Some(s) => match text::parsed_number(s, 10, u64::MAX as int) {
                    Some(n) => n as u64,
                    None => DEFAULT_CHAIN_ID,
                },
                None => self.chain_id,
            },
            sync_every_ticks: match o.sync_every_ticks {
                Some(s) => match text::parsed_number(s, 10, u32::MAX as int) {
                    Some(n) => n as u32,
                    None => DEFAULT_SYNC_TICKS,
                },
                None => self.sync_every_ticks,
            },
        }
    }
}

impl Default for ChainConfig {
    fn default() -> (r: ChainConfig)
        ensures
            r@ == ConfigView::standard(),
    {
        ChainConfig {
            rpc_url: "http://127.0.0.1:8545".to_string(),
            token: None,
            object_id: None,
            sync_every_ticks: DEFAULT_SYNC_TICKS,
            chain_id: DEFAULT_CHAIN_ID,
        }
    }
}

/// Settings as a user writes them.
#[derive(Debug, PartialEq, Eq)]
pub struct Overrides {
    pub rpc_url: Option<String>,
    pub token: Option<String>,
    pub object_id: Option<String>,
    pub chain_id: Option<String>,
    pub sync_every_ticks: Option<String>,
}

/// Settings as a user writes them, mathematically.
pub struct OverridesView {
    pub rpc_url: Option<Seq<char>>,
    pub token: Option<Seq<char>>,
    pub object_id: Option<Seq<char>>,
    pub chain_id: Option<Seq<char>>,
    pub sync_every_ticks: Option<Seq<char>>,
}

impl View for Overrides {
    type V = OverridesView;

    open spec fn view(&self) -> OverridesView {
        OverridesView {
            rpc_url: rpc::text_option_view(self.rpc_url),
            token: rpc::text_option_view(self.token),
            object_id: rpc::text_option_view(self.object_id),
            chain_id: rpc::text_option_view(self.chain_id),
            sync_every_ticks: rpc::text_option_view(self.sync_every_ticks),
        }
    }
}

impl ChainConfig {
    /// The settings with those that the user wrote replaced.
    pub fn with_overrides(self, o: Overrides) -> (r: ChainConfig)
        ensures
            r@ == self@.overridden(o@),
    {
        let mut config = self;
        if let Some(url) = o.rpc_url {
            config.rpc_url = url;
        }
        if let Some(token) = o.token {
            config.token = Some(token);
        }
        if let Some(object_id) = o.object_id {
            config.object_id = Some(object_id);
        }
        if let Some(s) = o.chain_id {
            config.chain_id = match parse_number(s.as_str(), 10, u64::MAX) {
                Some(n) => n,
                None => DEFAULT_CHAIN_ID,
            };
        }
        if let Some(s) = o.sync_every_ticks {
            config.sync_every_ticks = match parse_number(s.as_str(), 10, u32::MAX as u64) {
                Some(n) => n as u32,
                None => DEFAULT_SYNC_TICKS,
            };
        }
        config
    }
}

/// The client as a whole.
#[derive(Debug, PartialEq, Eq)]
pub struct RabbitChainPlugin {
    pub config: ChainConfig,
}

impl Default for RabbitChainPlugin {
    fn default() -> (r: RabbitChainPlugin)
        ensures
            r.config@ == ConfigView::standard(),
    {
        RabbitChainPlugin { config: ChainConfig::default() }
    }
}

impl RabbitChainPlugin {
    /// A client with those settings.
    pub fn with_config(config: ChainConfig) -> (r: RabbitChainPlugin)
        ensures
            r.config == config,
    {
        RabbitChainPlugin { config }
    }
}

/// An element that a fighter belongs to.
#[derive(Clone, Copy, Debug, PartialEq, Eq, Structural)]
pub enum Element {
    Metal,
    Wood,
    Fire,
}

/// A fighter of the simulator.
#[derive(Clone, Copy, Debug, PartialEq, Eq, Structural)]
pub struct Unit {
    pub id: u32,
    pub class: u8,
    pub element: Element,
    pub atk: u32,
    pub def: u32,
    pub hp: u32,
    pub max_hp: u32,
    pub spd: u32,
    pub crit_permille: u32,
}

/// A team of the simulator.
#[derive(Debug, PartialEq, Eq)]
pub struct Team {
    pub units: Vec<Unit>,
}

/// A fight that is about to be resolved.
#[derive(Debug, PartialEq, Eq)]
pub struct Fight {
    pub a: Team,
    pub b: Team,
    pub seed: u64,
}

/// The latest local settlement.
#[derive(Debug, PartialEq, Eq, Structural)]
pub struct Simulator {
    pub step: u64,
    pub last_seed: u64,
    pub last_winner: u8,
    pub last_rounds: u32,
}

/// The demonstration fighter.
pub open spec fn demo(id: u32, class: u8, element: Element) -> Unit {
    Unit {
        id,
        class,
        element,
        atk: 100,
        def: 30,
        hp: 1000,
        max_hp: 1000,
        spd: 10,
        crit_permille: 50,
    }
}

/// The seed of a step: the step's number, spread by a multiplication that wraps.
pub open spec fn tick_seed(step: u64) -> u64 {
    ((step * 2_654_435_761) % 0x1_0000_0000_0000_0000) as u64
}

/// The demonstration fighter.
pub fn demo_unit(id: u32, class: u8, element: Element) -> (r: Unit)
    ensures
        r == demo(id, class, element),
{
    Unit {
        id,
        class,
        element,
        atk: 100,
        def: 30,
        hp: 1000,
        max_hp: 1000,
        spd: 10,
        crit_permille: 50,
    }
}

impl Default for Simulator {
    fn default() -> (r: Simulator)
        ensures
            r == (Simulator { step: 0, last_seed: 0, last_winner: 0, last_rounds: 0 }),
    {
        Simulator { step: 0, last_seed: 0, last_winner: 0, last_rounds: 0 }
    }
}

impl Simulator {
    /// Goes on by one step, and says which fight is to be resolved for it.
    pub fn begin_tick(&mut self) -> (r: Fight)
        requires
            old(self).step < u64::MAX,
        ensures
            *final(self) == (Simulator { step: (old(self).step + 1) as u64, ..*old(self) }),
            r.seed == tick_seed(final(self).step),
            r.a.units@ == seq![demo(1, 0, Element::Metal), demo(2, 2, Element::Wood)],
            r.b.units@ == seq![demo(3, 0, Element::Fire)],
    {
        self.step = self.step + 1;
        let seed: u64 = self.step.wrapping_mul(2_654_435_761);
        let mut a: Vec<Unit> = Vec::new();
        a.push(demo_unit(1, 0, Element::Metal));
        a.push(demo_unit(2, 2, Element::Wood));
        let mut b: Vec<Unit> = Vec::new();
        b.push(demo_unit(3, 0, Element::Fire));
        assert(a@ =~= seq![demo(1, 0, Element::Metal), demo(2, 2, Element::Wood)]);
        assert(b@ =~= seq![demo(3, 0, Element::Fire)]);
        Fight { a: Team { units: a }, b: Team { units: b }, seed }
    }

    /// Keeps what a fight came to.
    pub fn record(&mut self, seed: u64, winner: u8, rounds: u32)
        ensures
            *final(self) == (Simulator {
                step: old(self).step,
                last_seed: seed,
                last_winner: winner,
                last_rounds: rounds,
            }),
    {
        self.last_seed = seed;
        self.last_winner = winner;
        self.last_rounds = rounds;
    }
}

/// Settings that the user does not write stay as they are.
pub proof fn law_no_overrides_no_change(config: ConfigView)
    ensures
        config.overridden(
            OverridesView {
                rpc_url: None,
                token: None,
                object_id: None,
                chain_id: None,
                sync_every_ticks: None,
            },
        ) == config,
{
}

/// Numbers that the user writes in decimal are taken as written.
pub proof fn law_numbers_are_taken_as_written(
    config: ConfigView,
    o: OverridesView,
    chain_id: u64,
    ticks: u32,
)
    requires
        o.chain_id == Some(text::decimal(chain_id as nat)),
        o.sync_every_ticks == Some(text::decimal(ticks as nat)),
    ensures
        config.overridden(o).chain_id == chain_id,
        config.overridden(o).sync_every_ticks == ticks,
{
    text::law_decimal_round_trip(chain_id as nat, u64::MAX as int);
    text::law_decimal_round_trip(ticks as nat, u32::MAX as int);
}

/// Without anything said, the client talks to a node on this machine, carries no token,
/// watches nothing, and is on the development network.
pub proof fn law_standard_settings()
    ensures
        ConfigView::standard().rpc_url == "http://127.0.0.1:8545"@,
        ConfigView::standard().token is None,
        ConfigView::standard().object_id is None,
        ConfigView::standard().sync_every_ticks == 60,
        ConfigView::standard().chain_id == 10088,
{
}

/// Each setting that the user writes replaces its own and no other; one that is not
/// written stays; a number that cannot be read counts as the default, 10088 for the chain
/// and 60 for the frames.
pub proof fn law_each_setting_replaces_its_own(config: ConfigView, o: OverridesView)
    ensures
        ({
            let c = config.overridden(o);
            &&& o.rpc_url matches Some(s) ==> c.rpc_url == s
            &&& o.rpc_url is None ==> c.rpc_url == config.rpc_url
            &&& o.token is Some ==> c.token == o.token
            &&& o.token is None ==> c.token == config.token
            &&& o.object_id is Some ==> c.object_id == o.object_id
            &&& o.object_id is None ==> c.object_id == config.object_id
            &&& o.chain_id is None ==> c.chain_id == config.chain_id
            &&& o.chain_id matches Some(s) ==> match text::parsed_number(s, 10, u64::MAX as int) {
                Some(n) => c.chain_id as int == n,
                None => c.chain_id == 10088,
            }
            &&& o.sync_every_ticks is None ==> c.sync_every_ticks == config.sync_every_ticks
            &&& o.sync_every_ticks matches Some(s) ==> match text::parsed_number(
                s,
                10,
                u32::MAX as int,
            ) {
                Some(n) => c.sync_every_ticks as int == n,
                None => c.sync_every_ticks == 60,
            }
        }),
{
    if let Some(s) = o.chain_id {
        lemma_read_numbers_are_not_negative(s, u64::MAX as int);
    }
    if let Some(s) = o.sync_every_ticks {
        lemma_read_numbers_are_not_negative(s, u32::MAX as int);
    }
}

/// A number that is read is not below zero, and within bounds.
proof fn lemma_read_numbers_are_not_negative(s: Seq<char>, max: int)
    ensures
        text::parsed_number(s, 10, max) matches Some(n) ==> 0 <= n <= max,
{
    lemma_decimal_values_are_not_negative(text::unsigned_part(s));
}

/// The value of decimal digits is not below zero.
proof fn lemma_decimal_values_are_not_negative(digits: Seq<char>)
    ensures
        text::digits_value(digits, 10) >= 0,
    decreases digits.len(),
{
    if digits.len() > 0 {
        lemma_decimal_values_are_not_negative(digits.drop_last());
    }
}

/// The seed of the first step is 2654435761, and seeds add up as steps do, modulo 2^64.
pub proof fn law_seeds_add_up(a: u64, b: u64)
    requires
        a + b <= u64::MAX,
    ensures
        tick_seed(0) == 0,
        tick_seed(1) == 2_654_435_761,
        tick_seed((a + b) as u64) as int == (tick_seed(a) + tick_seed(b))
            % 0x1_0000_0000_0000_0000,
{
    let m = 0x1_0000_0000_0000_0000int;
    let k = 2_654_435_761int;
    assert((a + b) * k == a * k + b * k) by (nonlinear_arith);
    vstd::arithmetic::div_mod::lemma_add_mod_noop(a * k, b * k, m);
}

/// The demonstration fighter has the given number, class and element, and otherwise always
/// the same strength.
pub proof fn law_demonstration_fighter(id: u32, class: u8, element: Element)
    ensures
        ({
            let u = demo(id, class, element);
            &&& u.id == id
            &&& u.class == class
            &&& u.element == element
            &&& u.atk == 100
            &&& u.def == 30
            &&& u.hp == 1000
            &&& u.max_hp == 1000
            &&& u.spd == 10
            &&& u.crit_permille == 50
        }),
{
}

/// Settings stand for what they hold.
pub proof fn law_settings_stand_for_what_they_hold(c: ChainConfig, o: Overrides)
    ensures
        c@.rpc_url == c.rpc_url@,
        c@.token is Some <==> c.token is Some,
        c.token matches Some(s) ==> c@.token == Some(s@),
        c@.object_id is Some <==> c.object_id is Some,
        c.object_id matches Some(s) ==> c@.object_id == Some(s@),
        c@.sync_every_ticks == c.sync_every_ticks,
        c@.chain_id == c.chain_id,
        o@.rpc_url is Some <==> o.rpc_url is Some,
        o.rpc_url matches Some(s) ==> o@.rpc_url == Some(s@),
        o@.token is Some <==> o.token is Some,
        o.token matches Some(s) ==> o@.token == Some(s@),
        o@.object_id is Some <==> o.object_id is Some,
        o.object_id matches Some(s) ==> o@.object_id == Some(s@),
        o@.chain_id is Some <==> o.chain_id is Some,
        o.chain_id matches Some(s) ==> o@.chain_id == Some(s@),
        o@.sync_every_ticks is Some <==> o.sync_every_ticks is Some,
        o.sync_every_ticks matches Some(s) ==> o@.sync_every_ticks == Some(s@),
{
}

} // verus!
