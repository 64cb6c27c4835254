//! Transfer telemetry: what each finished transfer measured, kept in the
//! order in which the transfers were recorded.
//!
//! Durations, rates and latencies are single-precision numbers. The store
//! computes nothing with them: it keeps each as a `Single`, the 32 bits of the
//! number, and only asks whether a duration is above zero.

use vstd::prelude::*;
use vstd::string::*;
use crate::record_store::{
    already_open_text, continue_load, load_step_of, next_step, open_step,
    FileEvent, JsonFile, LoadEvent, LoadStep, LoadStepView, SaveRequest,
};
use crate::text::{owned_text, same_text};

verus! {

/// A single-precision number, held as its 32 bits: sign, exponent, fraction.
#[derive(Clone, Copy, Debug, PartialEq, Eq, Structural)]
pub struct Single {
    pub bits: u32,
}

/// The bits of positive infinity: the highest pattern that is a number
/// above zero. Patterns above it with a clear sign bit are not numbers.
pub const POSITIVE_INFINITY_BITS: u32 = 0x7F80_0000;

impl Single {
    /// The number with these bits is above zero: its sign bit is clear, it is
    /// not zero, and it is a number.
    pub open spec fn positive(self) -> bool {
        0 < self.bits <= POSITIVE_INFINITY_BITS
    }

    /// The number with bits `bits`.
    pub fn from_bits(bits: u32) -> (r: Single)
        ensures
            r.bits == bits,
    {
        Single { bits }
    }

    /// The bits of the number.
    pub fn to_bits(&self) -> (r: u32)
        ensures
            r == self.bits,
    {
        self.bits
    }

    /// Whether the number is above zero.
    pub fn is_positive(&self) -> (r: bool)
        ensures
            r == self.positive(),
    {
        0 < self.bits && self.bits <= POSITIVE_INFINITY_BITS
    }
}

/// What one transfer measured.
#[derive(Debug)]
pub struct TransferStats {
    /// Bytes transferred.
    pub file_size: u32,
    /// Seconds the transfer took.
    pub transfer_time: Single,
    /// Megabytes per second.
    pub data_rate: Single,
    /// The reciprocal of the seconds the transfer took.
    pub latency: Single,
    /// Address of the peer.
    pub ip: String,
}

/// A `TransferStats` with its address as a character sequence.
pub struct TransferStatsView {
    pub file_size: u32,
    pub transfer_time: Single,
    pub data_rate: Single,
    pub latency: Single,
    pub ip: Seq<char>,
}

impl View for TransferStats {
    type V = TransferStatsView;

    open spec fn view(&self) -> TransferStatsView {
        TransferStatsView {
            file_size: self.file_size,
            transfer_time: self.transfer_time,
            data_rate: self.data_rate,
            latency: self.latency,
            ip: self.ip@,
        }
    }
}

impl Clone for TransferStats {
    fn clone(&self) -> (r: Self)
        ensures
            r@ == self@,
    {
        TransferStats {
            file_size: self.file_size,
            transfer_time: self.transfer_time,
            data_rate: self.data_rate,
            latency: self.latency,
            ip: self.ip.clone(),
        }
    }
}

impl PartialEq for TransferStats {
    fn eq(&self, other: &Self) -> (r: bool) {
        self.file_size == other.file_size && self.transfer_time.bits == other.transfer_time.bits
            && self.data_rate.bits == other.data_rate.bits && self.latency.bits
            == other.latency.bits && self.ip == other.ip
    }
}

impl vstd::std_specs::cmp::PartialEqSpecImpl for TransferStats {
    open spec fn obeys_eq_spec() -> bool {
        true
    }

    open spec fn eq_spec(&self, other: &Self) -> bool {
        self@ == other@
    }
}

/// The records of a list, each by its view.
pub open spec fn stat_records(stats: Seq<TransferStats>) -> Seq<TransferStatsView> {
    stats.map_values(|t: TransferStats| t@)
}

/// `i` is the place of the last record of `s` for the peer at `ip`.
pub open spec fn is_last_of(s: Seq<TransferStatsView>, ip: Seq<char>, i: int) -> bool {
    &&& 0 <= i < s.len()
    &&& s[i].ip == ip
    &&& forall|j: int| i < j < s.len() ==> (#[trigger] s[j]).ip != ip
}

/// The records of `s` for the peer at `ip`, in their order.
pub open spec fn stats_of(s: Seq<TransferStatsView>, ip: Seq<char>) -> Seq<TransferStatsView> {
    s.filter(|t: TransferStatsView| t.ip == ip)
}

/// The text of the error for recording into a closed store.
pub open spec fn closed_store_text() -> Seq<char> {
    "no file is loaded"@
}

/// The text of the error for a duration that is not above zero.
pub open spec fn bad_duration_text() -> Seq<char> {
    "duration is less than or equal to zero"@
}

/// The telemetry store. It is not shared by itself: a server that records
/// from several connections keeps it behind one lock.
pub struct NetworkAnalyzer {
    file: JsonFile,
    stats: Vec<TransferStats>,
}

impl NetworkAnalyzer {
    /// The path at which the store is open, if it is.
    pub closed spec fn location(&self) -> Option<Seq<char>> {
        self.file.location()
    }

    /// The records held, oldest first.
    pub closed spec fn records(&self) -> Seq<TransferStatsView> {
        stat_records(self.stats@)
    }

    /// The step by which a store whose recorded path is `current` answers
    /// `event`, when `path` is to be opened: a document that was read or
    /// created is to be decoded, any decoded list is taken, and a document
    /// that does not decode fails with the decoder's own words.
    pub open spec fn load_step(
        current: Option<Seq<char>>,
        path: Seq<char>,
        event: LoadEvent<TransferStats>,
    ) -> LoadStepView {
        match current {
            Some(p) => LoadStepView::Failed(already_open_text(p)),
            None => match event {
                LoadEvent::File(ev) => load_step_of(open_step(None, path, ev)),
                LoadEvent::Parsed(_) => LoadStepView::Loaded,
                LoadEvent::ParseFailed(reason) => LoadStepView::Failed(reason@),
            },
        }
    }

    /// A closed store without records.
    pub fn new() -> (store: NetworkAnalyzer)
        ensures
            store.location() is None,
            store.records().len() == 0,
    {
        NetworkAnalyzer { file: JsonFile::new(), stats: Vec::new() }
    }

    /// Whether the store is open.
    pub fn is_open(&self) -> (r: bool)
        ensures
            r == (self.location() is Some),
    {
        self.file.is_open()
    }

    /// One exchange of the opening of `path`.
    ///
    /// An open store refuses every event and names the path it holds. A
    /// closed one has the file read, or created when it cannot be read, and
    /// the text decoded; with the decoded list it becomes open and holds that
    /// list. Any other event leaves it as it was.
    pub fn open(&mut self, path: &str, event: LoadEvent<TransferStats>) -> (step: LoadStep)
        ensures
            step@ == NetworkAnalyzer::load_step(old(self).location(), path@, event),
            old(self).location() is None && event is Parsed ==> {
                &&& final(self).location() == Some(path@)
                &&& final(self).records() == stat_records(event->Parsed_0@)
            },
            !(old(self).location() is None && event is Parsed) ==> {
                &&& final(self).location() == old(self).location()
                &&& final(self).records() == old(self).records()
            },
    {
        if self.file.is_open() {
            return continue_load(next_step(self.file.path(), path, FileEvent::Begin));
        }
        match event {
            LoadEvent::File(ev) => continue_load(next_step(None, path, ev)),
            LoadEvent::Parsed(stats) => {
                self.file.attach(path);
                self.stats = stats;
                LoadStep::Loaded
            },
            LoadEvent::ParseFailed(reason) => LoadStep::Failed(reason),
        }
    }

    /// What is to be persisted: nothing while the store is closed, else all
    /// records, for the recorded path.
    pub fn save(&self) -> (request: SaveRequest<TransferStats>)
        ensures
            match request {
                SaveRequest::Nothing => self.location() is None,
                SaveRequest::Write { path, records } => {
                    &&& self.location() == Some(path@)
                    &&& stat_records(records@) == self.records()
                },
            },
    {
        match self.file.path() {
            None => SaveRequest::Nothing,
            Some(p) => {
                let mut records: Vec<TransferStats> = Vec::new();
                let mut i: usize = 0;
                while i < self.stats.len()
                    invariant
                        i <= self.stats.len(),
                        records.len() == i,
                        forall|k: int| 0 <= k < i ==> (#[trigger] records[k])@ == self.stats[k]@,
                    decreases self.stats.len() - i,
                {
                    records.push(self.stats[i].clone());
                    i += 1;
                }
                assert(stat_records(records@) =~= stat_records(self.stats@));
                SaveRequest::Write { path: owned_text(p), records }
            },
        }
    }

    /// Records a transfer of `file_size` bytes with the peer at `ip` that
    /// took `duration` seconds, for which the caller computed `data_rate` and
    /// `latency`.
    ///
    /// A closed store refuses; so does a duration that is not above zero, for
    /// which no rate is defined. Both leave the records as they were. Any
    /// other transfer becomes the last record.
    pub fn record_transfer(
        &mut self,
        file_size: u32,
        duration: Single,
        data_rate: Single,
        latency: Single,
        ip: &str,
    ) -> (r: Result<(), String>)
        ensures
            final(self).location() == old(self).location(),
            match r {
                Ok(_) => {
                    &&& old(self).location() is Some
                    &&& duration.positive()
                    &&& final(self).records() == old(self).records().push(
                        TransferStatsView {
                            file_size,
                            transfer_time: duration,
                            data_rate,
                            latency,
                            ip: ip@,
                        },
                    )
                },
                Err(e) => {
                    &&& final(self).records() == old(self).records()
                    &&& if old(self).location() is None {
                        e@ == closed_store_text()
                    } else {
                        !duration.positive() && e@ == bad_duration_text()
                    }
                },
            },
    {
        if !self.file.is_open() {
            return Err(owned_text("no file is loaded"));
        }
        if !duration.is_positive() {
            return Err(owned_text("duration is less than or equal to zero"));
        }
        let ghost before = self.records();
        let stat = TransferStats {
            file_size,
            transfer_time: duration,
            data_rate,
            latency,
            ip: owned_text(ip),
        };
        self.stats.push(stat);
        assert(self.records() =~= before.push(stat@));
        Ok(())
    }

    /// The records for the peer at `ip`, in the order in which they were
    /// recorded; none while the store is closed.
    pub fn get_stats_by_ip(&self, ip: &str) -> (r: Option<Vec<&TransferStats>>)
        ensures
            (r is Some) == (self.location() is Some),
            r matches Some(found) ==> found@.map_values(|t: &TransferStats| t@) == stats_of(
                self.records(),
                ip@,
            ),
    {
        if !self.file.is_open() {
            return None;
        }
        let ghost s = self.records();
        let ghost wanted = |t: TransferStatsView| t.ip == ip@;
        let mut found: Vec<&TransferStats> = Vec::new();
        let mut i: usize = 0;
        while i < self.stats.len()
            invariant
                i <= self.stats.len(),
                s == stat_records(self.stats@),
                wanted == |t: TransferStatsView| t.ip == ip@,
                found@.map_values(|t: &TransferStats| t@) == s.take(i as int).filter(wanted),
            decreases self.stats.len() - i,
        {
            assert(s[i as int] == self.stats[i as int]@);
            assert(s.take(i + 1).drop_last() == s.take(i as int));
            assert(s.take(i + 1).last() == s[i as int]);
            reveal(Seq::filter);
            let ghost before = found@;
            if same_text(self.stats[i].ip.as_str(), ip) {
                found.push(&self.stats[i]);
                assert(found@.map_values(|t: &TransferStats| t@) =~= before.map_values(
                    |t: &TransferStats| t@,
                ).push(s[i as int]));
            }
            i += 1;
        }
        assert(s.take(i as int) == s);
        Some(found)
    }

    /// The record that was recorded last for the peer at `ip`; none while
    /// the store is closed or holds no record for that peer.
    pub fn get_last_stat_by_ip(&self, ip: &str) -> (r: Option<TransferStats>)
        ensures
            match r {
                Some(t) => self.location() is Some && exists|i: int|
                    #[trigger] is_last_of(self.records(), ip@, i) && t@ == self.records()[i],
                None => self.location() is None || forall|i: int|
                    0 <= i < self.records().len() ==> (#[trigger] self.records()[i]).ip != ip@,
            },
    {
        if !self.file.is_open() {
            return None;
        }
        let ghost s = self.records();
        let mut i: usize = self.stats.len();
        while i > 0
            invariant
                i <= self.stats.len(),
                self.location() is Some,
                s == self.records(),
                s == stat_records(self.stats@),
                forall|j: int| i <= j < s.len() ==> (#[trigger] s[j]).ip != ip@,
            decreases i,
        {
            i -= 1;
            assert(s[i as int] == self.stats[i as int]@);
            if same_text(self.stats[i].ip.as_str(), ip) {
                assert(is_last_of(s, ip@, i as int));
                return Some(self.stats[i].clone());
            }
        }
        None
    }
}

impl Default for NetworkAnalyzer {
    fn default() -> (store: NetworkAnalyzer)
        ensures
            store.location() is None,
            store.records().len() == 0,
    {
        NetworkAnalyzer::new()
    }
}

} // verus!
