//! Hierarchical command protocol: military ranks and who may command whom,
//! rank presence with expiry and superior failover, and the command,
//! acknowledgement and presence messages that devices exchange.

use vstd::prelude::*;
use crate::protocol::ProtocolError;
use vstd::string::StringSliceAdditionalSpecFns;
use vstd::std_specs::cmp::{PartialOrdSpec, PartialOrdSpecImpl};
use core::cmp::Ordering;

verus! {

/// Ranks, from level 1 (private) to level 7 (general), ordered by level.
#[derive(Debug, Clone, Copy, PartialEq, Eq, Structural, Ord)]
pub enum MilitaryRank {
    Private,
    Sergeant,
    Lieutenant,
    Captain,
    Commander,
    Colonel,
    General,
}

/// The level of a rank, 1 to 7.
pub open spec fn rank_level(r: MilitaryRank) -> u8 {
    match r {
        MilitaryRank::Private => 1,
        MilitaryRank::Sergeant => 2,
        MilitaryRank::Lieutenant => 3,
        MilitaryRank::Captain => 4,
        MilitaryRank::Commander => 5,
        MilitaryRank::Colonel => 6,
        MilitaryRank::General => 7,
    }
}

/// The rank of a level, when the level is 1 to 7.
pub open spec fn rank_of_level(level: u8) -> Option<MilitaryRank> {
    if level == 1 {
        Some(MilitaryRank::Private)
    } else if level == 2 {
        Some(MilitaryRank::Sergeant)
    } else if level == 3 {
        Some(MilitaryRank::Lieutenant)
    } else if level == 4 {
        Some(MilitaryRank::Captain)
    } else if level == 5 {
        Some(MilitaryRank::Commander)
    } else if level == 6 {
        Some(MilitaryRank::Colonel)
    } else if level == 7 {
        Some(MilitaryRank::General)
    } else {
        None
    }
}

impl MilitaryRank {
    pub fn from_level(level: u8) -> (r: Option<Self>)
        ensures
            r == rank_of_level(level),
    {
        match level {
            1 => Some(MilitaryRank::Private),
            2 => Some(MilitaryRank::Sergeant),
            3 => Some(MilitaryRank::Lieutenant),
            4 => Some(MilitaryRank::Captain),
            5 => Some(MilitaryRank::Commander),
            6 => Some(MilitaryRank::Colonel),
            7 => Some(MilitaryRank::General),
            _ => None,
        }
    }

    pub fn level(&self) -> (r: u8)
        ensures
            r == rank_level(*self),
            1 <= r <= 7,
    {
        match self {
            MilitaryRank::Private => 1,
            MilitaryRank::Sergeant => 2,
            MilitaryRank::Lieutenant => 3,
            MilitaryRank::Captain => 4,
            MilitaryRank::Commander => 5,
            MilitaryRank::Colonel => 6,
            MilitaryRank::General => 7,
        }
    }

    /// A rank commands every rank at or below its level.
    pub fn can_command(&self, target: &MilitaryRank) -> (r: bool)
        ensures
            r == (rank_level(*self) >= rank_level(*target)),
    {
        self.level() >= target.level()
    }
}

/// Ranks compare by level.
impl PartialOrd for MilitaryRank {
    fn partial_cmp(&self, other: &Self) -> (r: Option<Ordering>) {
        let a = self.level();
        let b = other.level();
        if a < b {
            Some(Ordering::Less)
        } else if a == b {
            Some(Ordering::Equal)
        } else {
            Some(Ordering::Greater)
        }
    }
}

impl PartialOrdSpecImpl for MilitaryRank {
    open spec fn obeys_partial_cmp_spec() -> bool {
        true
    }

    open spec fn partial_cmp_spec(&self, other: &Self) -> Option<Ordering> {
        if rank_level(*self) < rank_level(*other) {
            Some(Ordering::Less)
        } else if rank_level(*self) == rank_level(*other) {
            Some(Ordering::Equal)
        } else {
            Some(Ordering::Greater)
        }
    }
}

/// Ranks are totally ordered by level: every rank's level lies in 1..7,
/// two ranks compare as their levels do, and only equal ranks compare equal.
pub proof fn lemma_rank_order(a: MilitaryRank, b: MilitaryRank)
    ensures
        1 <= rank_level(a) <= 7,
        PartialOrdSpec::partial_cmp_spec(&a, &b) == Some(Ordering::Less) <==> rank_level(a) < rank_level(b),
        PartialOrdSpec::partial_cmp_spec(&a, &b) == Some(Ordering::Equal) <==> a == b,
        PartialOrdSpec::partial_cmp_spec(&a, &b) == Some(Ordering::Greater) <==> rank_level(a) > rank_level(b),
{
}

/// Levels and ranks correspond one to one.
pub proof fn lemma_rank_level_round_trip(r: MilitaryRank, level: u8)
    ensures
        rank_of_level(rank_level(r)) == Some(r),
        1 <= level <= 7 ==> rank_of_level(level) is Some && rank_level(rank_of_level(level)->0) == level,
        !(1 <= level <= 7) ==> rank_of_level(level) is None,
{
}

/// Command authority is a total preorder on ranks, and only equal ranks
/// command each other.
pub proof fn lemma_command_order(a: MilitaryRank, b: MilitaryRank, c: MilitaryRank)
    ensures
        rank_level(a) >= rank_level(a),
        rank_level(a) >= rank_level(b) || rank_level(b) >= rank_level(a),
        rank_level(a) >= rank_level(b) && rank_level(b) >= rank_level(c) ==> rank_level(a) >= rank_level(c),
        rank_level(a) >= rank_level(b) && rank_level(b) >= rank_level(a) ==> a == b,
{
}

#[derive(Debug, Clone, Copy, PartialEq, Eq, Structural)]
pub enum CommandType {
    DirectOrder,
    CoordinationOrder,
    StatusUpdate,
    Acknowledgment,
    Emergency,
    SyncRequest,
    FormationCommand,
    ResourceAllocation,
}

/// A message between ranked devices.
#[derive(Debug, Clone)]
pub struct HierarchicalMessage {
    pub rank: MilitaryRank,
    pub target_rank: Option<MilitaryRank>,
    pub sequence_id: u32,
    /// Milliseconds since the Unix epoch.
    pub timestamp: u64,
    pub command_type: CommandType,
    pub payload: Vec<u8>,
    pub ack_required: bool,
}

#[derive(Debug, Clone, Copy, PartialEq, Eq, Structural)]
pub enum HierarchicalState {
    Idle,
    Discovering,
    EstablishingRank,
    ActiveCommand,
    EmergencyMode,
}

/// A device seen in the hierarchy.
#[derive(Debug, Clone, Copy)]
pub struct HierarchyPresence {
    pub rank: MilitaryRank,
    pub device_id: [u8; 16],
    pub last_seen_ms: u64,
    pub active: bool,
}

/// Channel a command travels on.
#[derive(Debug, Clone, Copy, PartialEq, Eq, Structural)]
pub enum CommandChannel {
    /// Laser, for generals and colonels.
    Laser,
    /// Ultrasound with LED, for commanders and captains.
    UltrasoundLed,
    /// Plain ultrasound, for lower ranks.
    Ultrasound,
}

/// Decimal digits of a number, in ASCII.
pub open spec fn decimal(n: nat) -> Seq<u8>
    decreases n,
{
    if n < 10 {
        seq![(48 + n) as u8]
    } else {
        decimal(n / 10).push((48 + n % 10) as u8)
    }
}

/// Appends the decimal digits of `n`.
pub fn push_decimal(out: &mut Vec<u8>, n: u32)
    ensures
        final(out)@ == old(out)@ + decimal(n as nat),
    decreases n,
{
    if n < 10 {
        out.push((48 + n) as u8);
        assert(out@ =~= old(out)@ + decimal(n as nat));
    } else {
        push_decimal(out, n / 10);
        out.push((48 + n % 10) as u8);
        assert(out@ =~= old(out)@ + decimal(n as nat));
    }
}

/// The payload announcing a rank: `RANK_` and its level.
pub open spec fn rank_payload(r: MilitaryRank) -> Seq<u8> {
    seq![82u8, 65, 78, 75, 95] + decimal(rank_level(r) as nat)
}

/// The payload acknowledging a command: `ACK_` and its sequence number.
pub open spec fn ack_payload(sequence_id: u32) -> Seq<u8> {
    seq![65u8, 67, 75, 95] + decimal(sequence_id as nat)
}

/// Milliseconds from `then` to `now`, zero when `then` is later.
pub open spec fn age(now: u64, then: u64) -> u64 {
    if now >= then {
        (now - then) as u64
    } else {
        0
    }
}

/// How long a presence record lives without being refreshed.
pub const PRESENCE_EXPIRY_MS: u64 = 30_000;

/// Presence records seen within the expiry window.
pub open spec fn unexpired(list: Seq<HierarchyPresence>, now: u64) -> Seq<HierarchyPresence>
    decreases list.len(),
{
    if list.len() == 0 {
        seq![]
    } else {
        let prev = unexpired(list.drop_last(), now);
        if age(now, list.last().last_seen_ms) < PRESENCE_EXPIRY_MS {
            prev.push(list.last())
        } else {
            prev
        }
    }
}

/// Index of the first record of a rank and device, or the length when none matches.
pub open spec fn find_presence(list: Seq<HierarchyPresence>, rank: MilitaryRank, device_id: Seq<u8>) -> int
    decreases list.len(),
{
    if list.len() == 0 {
        0
    } else if list[0].rank == rank && list[0].device_id@ == device_id {
        0
    } else {
        1 + find_presence(list.drop_first(), rank, device_id)
    }
}

/// Whether an active superior was seen within the timeout.
pub open spec fn superior_present(list: Seq<HierarchyPresence>, my_rank: MilitaryRank, now: u64, timeout: u64) -> bool {
    exists|i: int|
        0 <= i < list.len() && rank_level((#[trigger] list[i]).rank) > rank_level(my_rank) && list[i].active && age(
            now,
            list[i].last_seen_ms,
        ) < timeout
}

/// Records of equal or lower rank never make a superior present: with no
/// record ranked above the engine's own rank, no superior is present at any
/// time and for any timeout.
pub proof fn lemma_no_higher_rank_no_superior(list: Seq<HierarchyPresence>, my_rank: MilitaryRank, now: u64, timeout: u64)
    requires
        forall|i: int| 0 <= i < list.len() ==> rank_level((#[trigger] list[i]).rank) <= rank_level(my_rank),
    ensures
        !superior_present(list, my_rank, now, timeout),
{
}

/// Adding a record changes whether a superior is present only when it is
/// ranked above the engine, active and recently seen: a peer or a junior
/// never does.
pub proof fn lemma_added_record_and_superior(
    list: Seq<HierarchyPresence>,
    p: HierarchyPresence,
    my_rank: MilitaryRank,
    now: u64,
    timeout: u64,
)
    ensures
        rank_level(p.rank) <= rank_level(my_rank) ==> superior_present(list.push(p), my_rank, now, timeout)
            == superior_present(list, my_rank, now, timeout),
        rank_level(p.rank) > rank_level(my_rank) && p.active && age(now, p.last_seen_ms) < timeout ==> superior_present(
            list.push(p),
            my_rank,
            now,
            timeout,
        ),
        superior_present(list, my_rank, now, timeout) ==> superior_present(list.push(p), my_rank, now, timeout),
{
    let l2 = list.push(p);
    if superior_present(l2, my_rank, now, timeout) && rank_level(p.rank) <= rank_level(my_rank) {
        let i = choose|i: int|
            0 <= i < l2.len() && rank_level((#[trigger] l2[i]).rank) > rank_level(my_rank) && l2[i].active && age(
                now,
                l2[i].last_seen_ms,
            ) < timeout;
        assert(i < list.len());
        assert(list[i] == l2[i]);
    }
    if superior_present(list, my_rank, now, timeout) {
        let i = choose|i: int|
            0 <= i < list.len() && rank_level((#[trigger] list[i]).rank) > rank_level(my_rank) && list[i].active && age(
                now,
                list[i].last_seen_ms,
            ) < timeout;
        assert(l2[i] == list[i]);
    }
    if rank_level(p.rank) > rank_level(my_rank) && p.active && age(now, p.last_seen_ms) < timeout {
        assert(l2[list.len() as int] == p);
    }
}

/// The hierarchical protocol engine's decision state.
#[derive(Debug)]
pub struct HierarchicalProtocolEngine {
    state: HierarchicalState,
    my_rank: MilitaryRank,
    presence_list: Vec<HierarchyPresence>,
    hierarchical_sequence: u32,
    discovery_interval_ms: u64,
    last_discovery_ms: u64,
    superior_timeout_ms: u64,
}

/// A presence announcement: a status update broadcast to every rank with
/// the sender's rank, the given sequence number and time, the `RANK_<level>`
/// payload, and no acknowledgement asked.
pub open spec fn is_presence_announcement(m: HierarchicalMessage, rank: MilitaryRank, sequence: u32, timestamp: u64) -> bool {
    &&& m.rank == rank
    &&& m.target_rank is None
    &&& m.sequence_id == sequence
    &&& m.timestamp == timestamp
    &&& m.command_type == CommandType::StatusUpdate
    &&& m.payload@ == rank_payload(rank)
    &&& !m.ack_required
}

impl HierarchicalProtocolEngine {
    pub closed spec fn state(&self) -> HierarchicalState {
        self.state
    }

    pub closed spec fn rank(&self) -> MilitaryRank {
        self.my_rank
    }

    pub closed spec fn presence(&self) -> Seq<HierarchyPresence> {
        self.presence_list@
    }

    pub closed spec fn sequence(&self) -> u32 {
        self.hierarchical_sequence
    }

    pub closed spec fn last_discovery(&self) -> u64 {
        self.last_discovery_ms
    }

    pub closed spec fn discovery_interval(&self) -> u64 {
        self.discovery_interval_ms
    }

    pub closed spec fn superior_timeout(&self) -> u64 {
        self.superior_timeout_ms
    }

    /// An idle engine for a rank: presence broadcasts every 5 s, superiors
    /// considered gone after 800 ms.
    pub fn new(rank: MilitaryRank, now_ms: u64) -> (r: Self)
        ensures
            r.state() == HierarchicalState::Idle,
            r.rank() == rank,
            r.presence().len() == 0,
            r.sequence() == 0,
            r.discovery_interval() == 5000,
            r.last_discovery() == now_ms,
            r.superior_timeout() == 800,
    {
        HierarchicalProtocolEngine {
            state: HierarchicalState::Idle,
            my_rank: rank,
            presence_list: Vec::new(),
            hierarchical_sequence: 0,
            discovery_interval_ms: 5000,
            last_discovery_ms: now_ms,
            superior_timeout_ms: 800,
        }
    }

    pub fn enable_hierarchy(&mut self) -> (r: Result<(), ProtocolError>)
        ensures
            r is Ok,
            final(self).state() == HierarchicalState::Discovering,
            final(self).rank() == old(self).rank(),
            final(self).presence() == old(self).presence(),
            final(self).sequence() == old(self).sequence(),
    {
        self.state = HierarchicalState::Discovering;
        Ok(())
    }

    /// The rank presence broadcast, once the discovery interval has passed:
    /// a status update to everyone carrying `RANK_` and the level, under the
    /// next sequence number.
    pub fn broadcast_rank_presence(&mut self, now_ms: u64, timestamp: u64) -> (r: Option<HierarchicalMessage>)
        requires
            old(self).sequence() < u32::MAX,
        ensures
            age(now_ms, old(self).last_discovery()) < old(self).discovery_interval() ==> r is None && *final(self) == *old(self),
            age(now_ms, old(self).last_discovery()) >= old(self).discovery_interval() ==> r is Some
                && is_presence_announcement(r->0, old(self).rank(), old(self).sequence(), timestamp) && final(self).sequence() == old(self).sequence() + 1 && final(self).last_discovery() == now_ms
                && final(self).state() == old(self).state() && final(self).presence() == old(self).presence(),
            final(self).rank() == old(self).rank(),
            final(self).discovery_interval() == old(self).discovery_interval(),
            final(self).superior_timeout() == old(self).superior_timeout(),
    {
        let since: u64 = if now_ms >= self.last_discovery_ms { now_ms - self.last_discovery_ms } else { 0 };
        if since < self.discovery_interval_ms {
            return None;
        }
        let mut payload: Vec<u8> = vec![82u8, 65, 78, 75, 95];
        let level = self.my_rank.level();
        let ghost head = payload@;
        push_decimal(&mut payload, level as u32);
        assert(head =~= seq![82u8, 65, 78, 75, 95]);
        let message = HierarchicalMessage {
            rank: self.my_rank,
            target_rank: None,
            sequence_id: self.hierarchical_sequence,
            timestamp,
            command_type: CommandType::StatusUpdate,
            payload,
            ack_required: false,
        };
        self.hierarchical_sequence = self.hierarchical_sequence + 1;
        self.last_discovery_ms = now_ms;
        Some(message)
    }

    /// A command to a rank this device may command, under the next sequence
    /// number, with the channel its rank uses; commanding a higher rank is refused.
    pub fn send_command(
        &mut self,
        target_rank: MilitaryRank,
        command_type: CommandType,
        payload: Vec<u8>,
        require_ack: bool,
        timestamp: u64,
    ) -> (r: Result<(u32, HierarchicalMessage, CommandChannel), ProtocolError>)
        requires
            rank_level(old(self).rank()) >= rank_level(target_rank) ==> old(self).sequence() < u32::MAX,
        ensures
            rank_level(old(self).rank()) < rank_level(target_rank) ==> r == Err::<(u32, HierarchicalMessage, CommandChannel), ProtocolError>(
                ProtocolError::InvalidState,
            ) && *final(self) == *old(self),
            rank_level(old(self).rank()) >= rank_level(target_rank) ==> r is Ok && ({
                let (seq, m, ch) = r->Ok_0;
                &&& seq == old(self).sequence()
                &&& m.rank == old(self).rank()
                &&& m.target_rank == Some(target_rank)
                &&& m.sequence_id == seq
                &&& m.timestamp == timestamp
                &&& m.command_type == command_type
                &&& m.payload@ == payload@
                &&& m.ack_required == require_ack
                &&& ch == (match old(self).rank() {
                    MilitaryRank::General | MilitaryRank::Colonel => CommandChannel::Laser,
                    MilitaryRank::Commander | MilitaryRank::Captain => CommandChannel::UltrasoundLed,
                    _ => CommandChannel::Ultrasound,
                })
            }) && final(self).sequence() == old(self).sequence() + 1 && final(self).state() == old(self).state()
                && final(self).presence() == old(self).presence() && final(self).last_discovery() == old(self).last_discovery(),
            final(self).rank() == old(self).rank(),
    {
        if !self.my_rank.can_command(&target_rank) {
            return Err(ProtocolError::InvalidState);
        }
        let sequence = self.hierarchical_sequence;
        let message = HierarchicalMessage {
            rank: self.my_rank,
            target_rank: Some(target_rank),
            sequence_id: sequence,
            timestamp,
            command_type,
            payload,
            ack_required: require_ack,
        };
        self.hierarchical_sequence = self.hierarchical_sequence + 1;
        let channel = match self.my_rank {
            MilitaryRank::General | MilitaryRank::Colonel => CommandChannel::Laser,
            MilitaryRank::Commander | MilitaryRank::Captain => CommandChannel::UltrasoundLed,
            _ => CommandChannel::Ultrasound,
        };
        Ok((sequence, message, channel))
    }

    /// Records that a device was seen: expired records are dropped, then the
    /// first record of the same rank and device is refreshed, or a new one is
    /// appended.
    pub fn update_presence_list(&mut self, rank: MilitaryRank, device_id: [u8; 16], active: bool, now_ms: u64)
        ensures
            ({
                let kept = unexpired(old(self).presence(), now_ms);
                let i = find_presence(kept, rank, device_id@);
                let fresh = HierarchyPresence { rank, device_id, last_seen_ms: now_ms, active };
                &&& i < kept.len() ==> final(self).presence() == kept.update(
                    i,
                    HierarchyPresence { last_seen_ms: now_ms, active, ..kept[i] },
                )
                &&& i >= kept.len() ==> final(self).presence().drop_last() == kept
                    && final(self).presence().last().rank == rank
                    && final(self).presence().last().device_id@ == device_id@
                    && final(self).presence().last().last_seen_ms == now_ms
                    && final(self).presence().last().active == active
            }),
            final(self).state() == old(self).state(),
            final(self).rank() == old(self).rank(),
            final(self).sequence() == old(self).sequence(),
            final(self).last_discovery() == old(self).last_discovery(),
            final(self).discovery_interval() == old(self).discovery_interval(),
            final(self).superior_timeout() == old(self).superior_timeout(),
    {
        let ghost old_list = self.presence_list@;
        let mut kept: Vec<HierarchyPresence> = Vec::new();
        let mut k: usize = 0;
        while k < self.presence_list.len()
            invariant
                old_list == self.presence_list@,
                k <= old_list.len(),
                kept@ == unexpired(old_list.take(k as int), now_ms),
            decreases old_list.len() - k,
        {
            assert(old_list.take(k + 1).drop_last() =~= old_list.take(k as int));
            let p = self.presence_list[k];
            let a: u64 = if now_ms >= p.last_seen_ms { now_ms - p.last_seen_ms } else { 0 };
            if a < PRESENCE_EXPIRY_MS {
                kept.push(p);
            }
            k = k + 1;
        }
        assert(old_list.take(k as int) =~= old_list);
        let ghost kv = kept@;
        let mut i: usize = 0;
        assert(kv.skip(0) =~= kv);
        while i < kept.len()
            invariant
                kv == kept@,
                i <= kv.len(),
                find_presence(kv, rank, device_id@) == i + find_presence(kv.skip(i as int), rank, device_id@),
            ensures
                kv == kept@,
                i <= kv.len(),
                find_presence(kv, rank, device_id@) == i + find_presence(kv.skip(i as int), rank, device_id@),
                i < kv.len() ==> kv[i as int].rank == rank && kv[i as int].device_id@ == device_id@,
            decreases kv.len() - i,
        {
            assert(kv.skip(i as int)[0] == kv[i as int]);
            let same_id = crate::crypto::bytes_equal(kept[i].device_id.as_slice(), device_id.as_slice());
            if kept[i].rank == rank && same_id {
                break;
            }
            assert(kv.skip(i as int).drop_first() =~= kv.skip(i + 1));
            i = i + 1;
        }
        if i < kept.len() {
            let mut entry = kept[i];
            entry.last_seen_ms = now_ms;
            entry.active = active;
            kept.set(i, entry);
        } else {
            assert(kv.skip(i as int).len() == 0);
            kept.push(HierarchyPresence { rank, device_id, last_seen_ms: now_ms, active });
            assert(kept@.drop_last() =~= kv);
        }
        self.presence_list = kept;
    }

    /// Whether an active superior was seen within the superior timeout.
    pub fn is_superior_present(&self, now_ms: u64) -> (r: bool)
        ensures
            r == superior_present(self.presence(), self.rank(), now_ms, self.superior_timeout()),
    {
        let ghost l = self.presence_list@;
        let mut k: usize = 0;
        while k < self.presence_list.len()
            invariant
                l == self.presence_list@,
                k <= l.len(),
                forall|j: int| 0 <= j < k ==> !(rank_level((#[trigger] l[j]).rank) > rank_level(self.my_rank) && l[j].active
                    && age(now_ms, l[j].last_seen_ms) < self.superior_timeout_ms),
            decreases l.len() - k,
        {
            let p = self.presence_list[k];
            let a: u64 = if now_ms >= p.last_seen_ms { now_ms - p.last_seen_ms } else { 0 };
            if p.rank.level() > self.my_rank.level() && p.active && a < self.superior_timeout_ms {
                assert(l[k as int] == p);
                return true;
            }
            k = k + 1;
        }
        false
    }

    /// The highest rank among active records.
    pub fn get_highest_rank_present(&self) -> (r: Option<MilitaryRank>)
        ensures
            r is None <==> forall|i: int| 0 <= i < self.presence().len() ==> !(#[trigger] self.presence()[i]).active,
            r is Some ==> exists|i: int| 0 <= i < self.presence().len() && (#[trigger] self.presence()[i]).active
                && self.presence()[i].rank == r->0,
            r is Some ==> forall|i: int| 0 <= i < self.presence().len() && (#[trigger] self.presence()[i]).active
                ==> rank_level(self.presence()[i].rank) <= rank_level(r->0),
    {
        let ghost l = self.presence_list@;
        let mut best: Option<MilitaryRank> = None;
        let mut k: usize = 0;
        while k < self.presence_list.len()
            invariant
                l == self.presence_list@,
                k <= l.len(),
                best is None <==> forall|j: int| 0 <= j < k ==> !(#[trigger] l[j]).active,
                best is Some ==> exists|j: int| 0 <= j < k && (#[trigger] l[j]).active && l[j].rank == best->0,
                best is Some ==> forall|j: int| 0 <= j < k && (#[trigger] l[j]).active ==> rank_level(l[j].rank) <= rank_level(best->0),
            decreases l.len() - k,
        {
            let p = self.presence_list[k];
            assert(l[k as int] == p);
            if p.active {
                match best {
                    None => {
                        best = Some(p.rank);
                    },
                    Some(b) => {
                        if p.rank.level() > b.level() {
                            best = Some(p.rank);
                        }
                    },
                }
            }
            k = k + 1;
        }
        best
    }

    /// Without an active superior in sight, takes command and announces the
    /// rank (when the discovery interval allows).
    pub fn check_superior_failover(&mut self, now_ms: u64, timestamp: u64) -> (r: Option<HierarchicalMessage>)
        requires
            old(self).sequence() < u32::MAX,
        ensures
            superior_present(old(self).presence(), old(self).rank(), now_ms, old(self).superior_timeout()) ==> r is None
                && *final(self) == *old(self),
            !superior_present(old(self).presence(), old(self).rank(), now_ms, old(self).superior_timeout()) ==> final(self).state()
                == HierarchicalState::ActiveCommand,
            !superior_present(old(self).presence(), old(self).rank(), now_ms, old(self).superior_timeout()) && age(
                now_ms,
                old(self).last_discovery(),
            ) < old(self).discovery_interval() ==> r is None && final(self).sequence() == old(self).sequence()
                && final(self).last_discovery() == old(self).last_discovery(),
            !superior_present(old(self).presence(), old(self).rank(), now_ms, old(self).superior_timeout()) && age(
                now_ms,
                old(self).last_discovery(),
            ) >= old(self).discovery_interval() ==> r is Some && is_presence_announcement(
                r->0,
                old(self).rank(),
                old(self).sequence(),
                timestamp,
            ) && final(self).sequence() == old(self).sequence() + 1 && final(self).last_discovery() == now_ms,
            final(self).rank() == old(self).rank(),
            final(self).presence() == old(self).presence(),
            final(self).discovery_interval() == old(self).discovery_interval(),
            final(self).superior_timeout() == old(self).superior_timeout(),
    {
        if self.is_superior_present(now_ms) {
            return None;
        }
        self.state = HierarchicalState::ActiveCommand;
        self.broadcast_rank_presence(now_ms, timestamp)
    }

    /// Handles a received message: a higher rank is recorded and may trigger
    /// failover; a command to this rank (or a broadcast) from an equal or
    /// lower rank is processed: orders that ask for it are acknowledged with
    /// `ACK_` and their sequence number, and an emergency switches to
    /// emergency mode. Returns the messages to send.
    pub fn receive_hierarchical_message(&mut self, message: &HierarchicalMessage, now_ms: u64, timestamp: u64) -> (r: Result<
        Option<HierarchicalMessage>,
        ProtocolError,
    >)
        requires
            old(self).sequence() < u32::MAX,
        ensures
            r is Ok,
            rank_level(message.rank) <= rank_level(old(self).rank()) && (message.target_rank is None || rank_level(
                message.target_rank->0,
            ) >= rank_level(old(self).rank())) ==> ({
                let ordered = message.command_type == CommandType::DirectOrder || message.command_type
                    == CommandType::CoordinationOrder;
                &&& ordered && message.ack_required ==> r->Ok_0 is Some && r->Ok_0->0.command_type == CommandType::Acknowledgment
                    && r->Ok_0->0.payload@ == ack_payload(message.sequence_id) && r->Ok_0->0.sequence_id == old(self).sequence()
                    && r->Ok_0->0.target_rank is None && final(self).sequence() == old(self).sequence() + 1
                &&& !(ordered && message.ack_required) ==> r->Ok_0 is None && final(self).sequence() == old(self).sequence()
                &&& message.command_type == CommandType::Emergency ==> final(self).state() == HierarchicalState::EmergencyMode
                &&& message.command_type != CommandType::Emergency ==> final(self).state() == old(self).state()
                &&& final(self).presence() == old(self).presence()
            }),
            rank_level(message.rank) <= rank_level(old(self).rank()) && !(message.target_rank is None || rank_level(
                message.target_rank->0,
            ) >= rank_level(old(self).rank())) ==> r->Ok_0 is None && *final(self) == *old(self),
            final(self).rank() == old(self).rank(),
    {
        if message.rank.level() > self.my_rank.level() {
            self.update_presence_list(message.rank, [0u8; 16], true, now_ms);
            let announcement = self.check_superior_failover(now_ms, timestamp);
            return Ok(announcement);
        }
        let addressed = match message.target_rank {
            None => true,
            Some(t) => t.level() >= self.my_rank.level(),
        };
        if !addressed {
            return Ok(None);
        }
        match message.command_type {
            CommandType::DirectOrder | CommandType::CoordinationOrder => {
                if message.ack_required {
                    let ack = self.send_ack(message.sequence_id, timestamp);
                    return Ok(Some(ack));
                }
                Ok(None)
            },
            CommandType::Emergency => {
                self.state = HierarchicalState::EmergencyMode;
                Ok(None)
            },
            _ => Ok(None),
        }
    }

    fn send_ack(&mut self, sequence_id: u32, timestamp: u64) -> (r: HierarchicalMessage)
        requires
            old(self).sequence() < u32::MAX,
        ensures
            r.rank == old(self).rank(),
            r.target_rank is None,
            r.sequence_id == old(self).sequence(),
            r.timestamp == timestamp,
            r.command_type == CommandType::Acknowledgment,
            r.payload@ == ack_payload(sequence_id),
            !r.ack_required,
            final(self).sequence() == old(self).sequence() + 1,
            final(self).state() == old(self).state(),
            final(self).presence() == old(self).presence(),
            final(self).rank() == old(self).rank(),
    {
        let mut payload: Vec<u8> = vec![65u8, 67, 75, 95];
        let ghost head = payload@;
        push_decimal(&mut payload, sequence_id);
        assert(head =~= seq![65u8, 67, 75, 95]);
        let message = HierarchicalMessage {
            rank: self.my_rank,
            target_rank: None,
            sequence_id: self.hierarchical_sequence,
            timestamp,
            command_type: CommandType::Acknowledgment,
            payload,
            ack_required: false,
        };
        self.hierarchical_sequence = self.hierarchical_sequence + 1;
        message
    }

    pub fn get_current_state(&self) -> (r: HierarchicalState)
        ensures
            r == self.state(),
    {
        self.state
    }

    pub fn get_rank(&self) -> (r: MilitaryRank)
        ensures
            r == self.rank(),
    {
        self.my_rank
    }

    pub fn get_sequence(&self) -> (r: u32)
        ensures
            r == self.sequence(),
    {
        self.hierarchical_sequence
    }
}

/// What a command payload asks of a robot.
#[derive(Debug, Clone, Copy, PartialEq, Eq, Structural)]
pub enum PayloadCommand {
    /// `PUSH CART...`: cart-pushing coordination.
    PushCart,
    /// `SYNC...`: synchronisation.
    Sync,
    /// Exactly `FOLLOW GREEN FLASHES`: autonomous emergency mode.
    FollowGreenFlashes,
    /// Anything else, which is ignored.
    Other,
}

pub open spec fn push_cart_prefix() -> Seq<u8> {
    seq![80u8, 85, 83, 72, 32, 67, 65, 82, 84]
}

pub open spec fn sync_prefix() -> Seq<u8> {
    seq![83u8, 89, 78, 67]
}

pub open spec fn follow_green_flashes() -> Seq<u8> {
    seq![70u8, 79, 76, 76, 79, 87, 32, 71, 82, 69, 69, 78, 32, 70, 76, 65, 83, 72, 69, 83]
}

pub open spec fn payload_command(p: Seq<u8>) -> PayloadCommand {
    if p.len() >= 9 && p.take(9) == push_cart_prefix() {
        PayloadCommand::PushCart
    } else if p.len() >= 4 && p.take(4) == sync_prefix() {
        PayloadCommand::Sync
    } else if p == follow_green_flashes() {
        PayloadCommand::FollowGreenFlashes
    } else {
        PayloadCommand::Other
    }
}

fn starts_with(p: &[u8], prefix: &[u8]) -> (r: bool)
    ensures
        r == (p@.len() >= prefix@.len() && p@.take(prefix@.len() as int) == prefix@),
{
    if p.len() < prefix.len() {
        return false;
    }
    let mut i: usize = 0;
    while i < prefix.len()
        invariant
            p@.len() >= prefix@.len(),
            i <= prefix@.len(),
            forall|j: int| 0 <= j < i ==> p@[j] == prefix@[j],
        decreases prefix@.len() - i,
    {
        if p[i] != prefix[i] {
            assert(p@.take(prefix@.len() as int)[i as int] != prefix@[i as int]);
            return false;
        }
        i = i + 1;
    }
    assert(p@.take(prefix@.len() as int) =~= prefix@);
    true
}

/// What a received order's payload asks for; the robot controls act on it.
pub fn execute_command_payload(payload: &[u8]) -> (r: PayloadCommand)
    ensures
        r == payload_command(payload@),
{
    let cart: [u8; 9] = [80u8, 85, 83, 72, 32, 67, 65, 82, 84];
    let sync: [u8; 4] = [83u8, 89, 78, 67];
    let follow: [u8; 20] = [70u8, 79, 76, 76, 79, 87, 32, 71, 82, 69, 69, 78, 32, 70, 76, 65, 83, 72, 69, 83];
    assert(cart@ =~= push_cart_prefix());
    assert(sync@ =~= sync_prefix());
    assert(follow@ =~= follow_green_flashes());
    if starts_with(payload, cart.as_slice()) {
        PayloadCommand::PushCart
    } else if starts_with(payload, sync.as_slice()) {
        PayloadCommand::Sync
    } else if crate::crypto::bytes_equal(payload, follow.as_slice()) {
        PayloadCommand::FollowGreenFlashes
    } else {
        PayloadCommand::Other
    }
}

impl HierarchicalProtocolEngine {
    /// A coordination order carrying `command`, acknowledgement required,
    /// for each target rank, all under the current sequence number (each is
    /// issued from a copy of this engine, whose own sequence does not move);
    /// refused when any target outranks this device.
    pub fn coordinate_multi_device(&self, target_ranks: &Vec<MilitaryRank>, command: &str, timestamp: u64) -> (r: Result<
        Vec<(u32, HierarchicalMessage, CommandChannel)>,
        ProtocolError,
    >)
        ensures
            (exists|i: int| 0 <= i < target_ranks@.len() && rank_level(self.rank()) < rank_level(#[trigger] target_ranks@[i]))
                ==> r == Err::<Vec<(u32, HierarchicalMessage, CommandChannel)>, ProtocolError>(ProtocolError::InvalidState),
            (forall|i: int| 0 <= i < target_ranks@.len() ==> rank_level(self.rank()) >= rank_level(#[trigger] target_ranks@[i]))
                ==> r is Ok && r->Ok_0@.len() == target_ranks@.len() && forall|i: int| 0 <= i < target_ranks@.len() ==> {
                    let (seq, m, ch) = #[trigger] r->Ok_0@[i];
                    &&& seq == self.sequence()
                    &&& m.rank == self.rank()
                    &&& m.target_rank == Some(target_ranks@[i])
                    &&& m.sequence_id == self.sequence()
                    &&& m.timestamp == timestamp
                    &&& m.command_type == CommandType::CoordinationOrder
                    &&& m.payload@ == command.spec_bytes()
                    &&& m.ack_required
                    &&& ch == rank_channel(self.rank())
                },
    {
        let mut out: Vec<(u32, HierarchicalMessage, CommandChannel)> = Vec::new();
        let mut i: usize = 0;
        while i < target_ranks.len()
            invariant
                i <= target_ranks@.len(),
                out@.len() == i,
                forall|j: int| 0 <= j < i ==> rank_level(self.rank()) >= rank_level(#[trigger] target_ranks@[j]),
                forall|j: int| 0 <= j < i ==> {
                    let (seq, m, ch) = #[trigger] out@[j];
                    &&& seq == self.sequence()
                    &&& m.rank == self.rank()
                    &&& m.target_rank == Some(target_ranks@[j])
                    &&& m.sequence_id == self.sequence()
                    &&& m.timestamp == timestamp
                    &&& m.command_type == CommandType::CoordinationOrder
                    &&& m.payload@ == command.spec_bytes()
                    &&& m.ack_required
                    &&& ch == rank_channel(self.rank())
                },
            decreases target_ranks@.len() - i,
        {
            let target = target_ranks[i];
            if !self.my_rank.can_command(&target) {
                return Err(ProtocolError::InvalidState);
            }
            let payload = vstd::slice::slice_to_vec(command.as_bytes());
            let message = HierarchicalMessage {
                rank: self.my_rank,
                target_rank: Some(target),
                sequence_id: self.hierarchical_sequence,
                timestamp,
                command_type: CommandType::CoordinationOrder,
                payload,
                ack_required: true,
            };
            let channel = match self.my_rank {
                MilitaryRank::General | MilitaryRank::Colonel => CommandChannel::Laser,
                MilitaryRank::Commander | MilitaryRank::Captain => CommandChannel::UltrasoundLed,
                _ => CommandChannel::Ultrasound,
            };
            out.push((self.hierarchical_sequence, message, channel));
            i = i + 1;
        }
        Ok(out)
    }
}

/// The channel a rank commands over.
pub open spec fn rank_channel(r: MilitaryRank) -> CommandChannel {
    match r {
        MilitaryRank::General | MilitaryRank::Colonel => CommandChannel::Laser,
        MilitaryRank::Commander | MilitaryRank::Captain => CommandChannel::UltrasoundLed,
        _ => CommandChannel::Ultrasound,
    }
}

} // verus!
