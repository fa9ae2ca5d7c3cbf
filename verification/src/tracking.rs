//! The data service's decisions about streaming and transactions: how many
//! clients stream (and so whether the polling loop runs), and the volume
//! delivered against the active transaction's target.

use vstd::prelude::*;
use vstd::string::*;
use crate::float_bits::F32Bits;

verus! {

/// The transaction whose delivered volume is being tracked.
#[derive(Debug, Clone, PartialEq, Eq)]
pub struct ActiveTransaction {
    pub transaction_id: String,
    pub target_volume: F32Bits,
    pub current_volume: F32Bits,
    pub vessel_name: String,
}

/// Streaming clients and the active transaction of a data service.
#[derive(Debug, Clone, PartialEq, Eq)]
pub struct ServiceState {
    pub streaming_clients: usize,
    pub active_transaction: Option<ActiveTransaction>,
}

/// What a volume update reports: the transaction the reading belongs to,
/// and whether this update completed it.
#[derive(Debug, Clone, PartialEq, Eq)]
pub struct VolumeUpdate {
    pub transaction_id: Option<String>,
    pub completed: bool,
}

/// What a stop-streaming request did.
#[derive(Debug, Clone, PartialEq, Eq)]
pub struct StopStreaming {
    /// The transaction that was active and is now cancelled.
    pub cancelled_transaction: Option<String>,
    /// The last streaming client left: the polling loop is to stop.
    pub stop_polling: bool,
    /// No client was streaming when the request came.
    pub count_was_zero: bool,
}

/// The id of a transaction while its delivered volume is below its target.
pub open spec fn spec_open_id(active: Option<ActiveTransaction>) -> Option<Seq<char>> {
    match active {
        Some(tx) => if tx.current_volume.spec_lt(tx.target_volume) {
            Some(tx.transaction_id@)
        } else {
            None
        },
        None => None,
    }
}

/// The state after a volume update that sets the delivered volume to
/// `new_volume`: a transaction that crosses its target is cleared.
pub open spec fn spec_after_volume(active: Option<ActiveTransaction>, new_volume: F32Bits) -> Option<
    ActiveTransaction,
> {
    match active {
        Some(tx) => if spec_completes(tx, new_volume) {
            None
        } else {
            Some(ActiveTransaction { current_volume: new_volume, ..tx })
        },
        None => None,
    }
}

/// Setting the delivered volume of `tx` to `new_volume` completes it: it was
/// below target and now is at or above it.
pub open spec fn spec_completes(tx: ActiveTransaction, new_volume: F32Bits) -> bool {
    tx.current_volume.spec_lt(tx.target_volume) && tx.target_volume.spec_le(new_volume)
}

/// The transaction id a volume update reports.
pub open spec fn spec_update_id(active: Option<ActiveTransaction>, new_volume: F32Bits) -> Option<
    Seq<char>,
> {
    match active {
        Some(tx) => if spec_completes(tx, new_volume) || new_volume.spec_lt(tx.target_volume) {
            Some(tx.transaction_id@)
        } else {
            None
        },
        None => None,
    }
}

/// The streaming count after a client starts streaming.
pub open spec fn spec_count_after_start(count: nat) -> nat {
    count + 1
}

/// The streaming count after a client stops streaming (never below zero).
pub open spec fn spec_count_after_stop(count: nat) -> nat {
    if count == 0 {
        0
    } else {
        (count - 1) as nat
    }
}

/// A start from this count starts the polling loop.
pub open spec fn spec_start_starts_polling(count: nat) -> bool {
    count == 0
}

/// A stop from this count stops the polling loop.
pub open spec fn spec_stop_stops_polling(count: nat) -> bool {
    count == 1
}

/// The text of an optional id.
pub open spec fn id_view(id: Option<String>) -> Option<Seq<char>> {
    match id {
        Some(s) => Some(s@),
        None => None,
    }
}

impl ServiceState {
    /// No streaming clients and no transaction.
    pub fn new() -> (r: ServiceState)
        ensures
            r.streaming_clients == 0,
            r.active_transaction is None,
    {
        ServiceState { streaming_clients: 0, active_transaction: None }
    }

    /// Starts tracking `transaction_id` toward `target_volume`, from zero
    /// delivered volume; a transaction tracked before is dropped.
    pub fn start_transaction_with_volume(
        &mut self,
        transaction_id: String,
        target_volume: F32Bits,
        vessel_name: String,
    )
        ensures
            final(self).streaming_clients == old(self).streaming_clients,
            final(self).active_transaction == Some(
                ActiveTransaction {
                    transaction_id,
                    target_volume,
                    current_volume: F32Bits::spec_zero(),
                    vessel_name,
                },
            ),
    {
        self.active_transaction = Some(
            ActiveTransaction {
                transaction_id,
                target_volume,
                current_volume: F32Bits::zero(),
                vessel_name,
            },
        );
    }

    /// The active transaction's id, while its delivered volume is below its
    /// target.
    pub fn get_active_transaction_id(&self) -> (r: Option<String>)
        ensures
            id_view(r) == spec_open_id(self.active_transaction),
    {
        match &self.active_transaction {
            Some(tx) => {
                if tx.current_volume.lt(tx.target_volume) {
                    Some(tx.transaction_id.clone())
                } else {
                    None
                }
            },
            None => None,
        }
    }

    /// The delivered volume of the active transaction, if any.
    pub fn current_volume(&self) -> (r: Option<F32Bits>)
        ensures
            r == match self.active_transaction {
                Some(tx) => Some(tx.current_volume),
                None => None::<F32Bits>,
            },
    {
        match &self.active_transaction {
            Some(tx) => Some(tx.current_volume),
            None => None,
        }
    }

    /// Sets the delivered volume of the active transaction to `new_volume`
    /// (the caller's `current_volume + delta`). A transaction that goes from
    /// below its target to at or above it is completed and cleared; the
    /// update reports its id. Otherwise the id is reported while the volume
    /// stays below target.
    pub fn update_transaction_volume(&mut self, new_volume: F32Bits) -> (r: VolumeUpdate)
        ensures
            final(self).streaming_clients == old(self).streaming_clients,
            final(self).active_transaction == spec_after_volume(
                old(self).active_transaction,
                new_volume,
            ),
            id_view(r.transaction_id) == spec_update_id(old(self).active_transaction, new_volume),
            r.completed == (old(self).active_transaction matches Some(tx) && spec_completes(
                tx,
                new_volume,
            )),
    {
        match self.active_transaction.take() {
            Some(tx) => {
                let was_below = tx.current_volume.lt(tx.target_volume);
                let reached = tx.target_volume.le(new_volume);
                if was_below && reached {
                    VolumeUpdate { transaction_id: Some(tx.transaction_id), completed: true }
                } else {
                    let still_below = new_volume.lt(tx.target_volume);
                    let id = if still_below {
                        Some(tx.transaction_id.clone())
                    } else {
                        None
                    };
                    self.active_transaction = Some(
                        ActiveTransaction { current_volume: new_volume, ..tx },
                    );
                    VolumeUpdate { transaction_id: id, completed: false }
                }
            },
            None => VolumeUpdate { transaction_id: None, completed: false },
        }
    }

    /// Accounts a reading whose total volume moved by `delta`, with
    /// `volume_after` the caller's `current_volume + delta`. A delta that is
    /// not `>= 0` (negative, or NaN) leaves the volume alone and only reports
    /// the open transaction.
    pub fn record_volume_delta(&mut self, delta: F32Bits, volume_after: F32Bits) -> (r:
        VolumeUpdate)
        ensures
            F32Bits::spec_zero().spec_le(delta) ==> {
                &&& final(self).active_transaction == spec_after_volume(
                    old(self).active_transaction,
                    volume_after,
                )
                &&& id_view(r.transaction_id) == spec_update_id(
                    old(self).active_transaction,
                    volume_after,
                )
                &&& r.completed == (old(self).active_transaction matches Some(tx)
                    && spec_completes(tx, volume_after))
            },
            !F32Bits::spec_zero().spec_le(delta) ==> {
                &&& final(self).active_transaction == old(self).active_transaction
                &&& id_view(r.transaction_id) == spec_open_id(old(self).active_transaction)
                &&& !r.completed
            },
            final(self).streaming_clients == old(self).streaming_clients,
    {
        if F32Bits::zero().le(delta) {
            self.update_transaction_volume(volume_after)
        } else {
            VolumeUpdate { transaction_id: self.get_active_transaction_id(), completed: false }
        }
    }

    /// A client starts streaming. Returns whether it is the first one, in
    /// which case the polling loop is to start.
    pub fn start_streaming(&mut self) -> (start_polling: bool)
        requires
            old(self).streaming_clients < usize::MAX,
        ensures
            final(self).streaming_clients == spec_count_after_start(
                old(self).streaming_clients as nat,
            ),
            final(self).active_transaction == old(self).active_transaction,
            start_polling == spec_start_starts_polling(old(self).streaming_clients as nat),
    {
        self.streaming_clients = self.streaming_clients + 1;
        self.streaming_clients == 1
    }

    /// A client stops streaming. The active transaction, if any, is
    /// cancelled; the count drops by one unless it is already zero; the
    /// polling loop stops when the last client leaves.
    pub fn stop_streaming(&mut self) -> (r: StopStreaming)
        ensures
            final(self).active_transaction is None,
            id_view(r.cancelled_transaction) == match old(self).active_transaction {
                Some(tx) => Some(tx.transaction_id@),
                None => None::<Seq<char>>,
            },
            r.count_was_zero == (old(self).streaming_clients == 0),
            final(self).streaming_clients == spec_count_after_stop(
                old(self).streaming_clients as nat,
            ),
            r.stop_polling == spec_stop_stops_polling(old(self).streaming_clients as nat),
    {
        let cancelled_transaction = match self.active_transaction.take() {
            Some(tx) => Some(tx.transaction_id),
            None => None,
        };
        if self.streaming_clients > 0 {
            self.streaming_clients = self.streaming_clients - 1;
            let stop_polling = self.streaming_clients == 0;
            StopStreaming { cancelled_transaction, stop_polling, count_was_zero: false }
        } else {
            StopStreaming { cancelled_transaction, stop_polling: false, count_was_zero: true }
        }
    }
}

/// Stopping undoes starting: a client that starts and then stops streaming
/// leaves the count where it was, and its stop halts the polling loop exactly
/// when its start launched it.
pub proof fn lemma_stop_undoes_start(count: nat)
    ensures
        spec_count_after_stop(spec_count_after_start(count)) == count,
        spec_stop_stops_polling(spec_count_after_start(count)) == spec_start_starts_polling(count),
{
}

/// The polling loop runs exactly while some client streams: a start launches
/// it only from zero clients, and a stop halts it only when it leaves zero.
pub proof fn lemma_polling_follows_count(count: nat)
    ensures
        spec_start_starts_polling(count) <==> (count == 0 && spec_count_after_start(count) > 0),
        spec_stop_stops_polling(count) <==> (count > 0 && spec_count_after_stop(count) == 0),
{
}

/// A transaction completes at most once: the update that completes it
/// clears it, and no later update reports it or completes anything until a
/// new transaction is started.
pub proof fn lemma_completion_is_final(
    active: Option<ActiveTransaction>,
    volume: F32Bits,
    later_volume: F32Bits,
)
    requires
        active matches Some(tx) && spec_completes(tx, volume),
    ensures
        spec_after_volume(active, volume) is None,
        spec_update_id(spec_after_volume(active, volume), later_volume) is None,
        spec_open_id(spec_after_volume(active, volume)) is None,
{
}

/// While the delivered volume stays below target the transaction stays
/// open: the update reports its id and the id remains the open one.
pub proof fn lemma_below_target_stays_open(tx: ActiveTransaction, volume: F32Bits)
    requires
        volume.spec_lt(tx.target_volume),
    ensures
        spec_update_id(Some(tx), volume) == Some(tx.transaction_id@),
        spec_open_id(spec_after_volume(Some(tx), volume)) == Some(tx.transaction_id@),
{
}

/// A transaction that is not open (none, or its delivered volume is not
/// below its target) is never reported nor completed by an update whose new
/// volume does not fall below the delivered one (a non-negative delta added
/// to it, or NaN when the delivered volume is NaN): the update reports no
/// transaction and only records the new volume.
pub proof fn lemma_reached_target_reports_nothing(
    active: Option<ActiveTransaction>,
    volume_after: F32Bits,
)
    requires
        spec_open_id(active) is None,
        active matches Some(tx) ==> (tx.current_volume.spec_le(volume_after)
            || volume_after.spec_is_nan()),
    ensures
        spec_update_id(active, volume_after) is None,
        !(active matches Some(tx) && spec_completes(tx, volume_after)),
        spec_after_volume(active, volume_after) == match active {
            Some(tx) => Some(ActiveTransaction { current_volume: volume_after, ..tx }),
            None => None::<ActiveTransaction>,
        },
{
}

} // verus!
