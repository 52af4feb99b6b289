use vstd::prelude::*;

use crate::config::{DriverConfiguration, RoleType};

verus! {

/// The errors that the driver reports to its callers.
#[derive(Clone, Copy, Debug, PartialEq, Eq, Structural)]
pub enum DriverError {
    /// A full node received a notification from consensus.
    FullNodeConsensusNotification,
    /// Consensus sent a notification before bootstrapping finished.
    BootstrapNotComplete,
    /// The latest synced state could not be read from storage.
    StorageError,
}

/// A notification sent by consensus, reduced to what the driver decides on.
#[derive(Clone, Copy, Debug, PartialEq, Eq, Structural)]
pub enum ConsensusNotification {
    /// Consensus committed a block of transactions.
    NotifyCommit,
    /// Consensus asks the node to sync to the given ledger version.
    SyncToTarget { target_version: u64 },
}

/// What the driver does with a consensus notification.
#[derive(Clone, Copy, Debug, PartialEq, Eq, Structural)]
pub enum ConsensusDecision {
    /// Respond to consensus with the error and handle nothing.
    Reject(DriverError),
    /// Handle the committed transactions.
    HandleCommit,
    /// Handle the request to sync to the given target version.
    HandleSyncToTarget(u64),
}

/// A request by consensus to sync to a target ledger version.
#[derive(Clone, Copy, Debug, PartialEq, Eq, Structural)]
pub struct ConsensusSyncRequest {
    pub target_version: u64,
    /// When the last transactions were committed while the request was active.
    pub last_commit_timestamp_ms: u64,
}

/// Whether a new sync request is met at once or must wait.
#[derive(Clone, Copy, Debug, PartialEq, Eq, Structural)]
pub enum SyncRequestStatus {
    Satisfied,
    Pending,
}

/// A collaborator whose active data stream may be terminated.
#[derive(Clone, Copy, Debug, PartialEq, Eq, Structural)]
pub enum StreamOwner {
    Bootstrapper,
    ContinuousSyncer,
}

/// The feedback handed to the streaming service when a stream is terminated.
#[derive(Clone, Copy, Debug, PartialEq, Eq, Structural)]
pub enum NotificationFeedback {
    InvalidPayloadData,
}

/// Which stream to terminate after an error notification, and how.
#[derive(Clone, Copy, Debug, PartialEq, Eq, Structural)]
pub struct StreamTermination {
    pub owner: StreamOwner,
    pub notification_id: u64,
    pub feedback: NotificationFeedback,
}

/// What happens after an attempt to terminate an active stream.
#[derive(Clone, Copy, Debug, PartialEq, Eq, Structural)]
pub enum TerminationVerdict {
    /// The stream is gone: the driver goes on with the next event.
    Continue,
    /// The stream could not be terminated: the process must abort.
    Abort,
}

/// What the driver does on a progress tick.
#[derive(Clone, Copy, Debug, PartialEq, Eq, Structural)]
pub enum ProgressAction {
    /// No peers, and the connection deadline has passed: mark bootstrapping
    /// as complete.
    CompleteBootstrapping,
    /// No peers: nothing more to do on this tick.
    Skip,
    /// Check the progress of the active sync request, then dispatch.
    CheckSyncRequest,
    /// Consensus drives the ledger: nothing to do.
    ConsensusExecuting,
    /// Drive the continuous syncer towards the given sync request, if any.
    DriveContinuousSyncer(Option<ConsensusSyncRequest>),
    /// Drive the bootstrapper with the peers' data summary.
    DriveBootstrapper,
}

/// A commit notification for accounts, carrying the transaction that ends
/// bootstrapping once every account is synced.
#[derive(Debug)]
pub struct CommittedAccounts<T> {
    pub all_accounts_synced: bool,
    pub last_committed_account_index: u64,
    pub committed_transaction: Option<T>,
}

/// The verdict of the driver on a consensus notification, given the node's
/// role and whether it is bootstrapped.
pub open spec fn consensus_verdict(role: RoleType, bootstrapped: bool) -> Result<(), DriverError> {
    if role == RoleType::FullNode {
        Err(DriverError::FullNodeConsensusNotification)
    } else if !bootstrapped {
        Err(DriverError::BootstrapNotComplete)
    } else {
        Ok(())
    }
}

/// A sync request after transactions were committed at `now_ms`.
pub open spec fn refreshed(request: Option<ConsensusSyncRequest>, now_ms: u64) -> Option<ConsensusSyncRequest> {
    match request {
        Some(r) => Some(ConsensusSyncRequest { last_commit_timestamp_ms: now_ms, ..r }),
        None => None,
    }
}

/// The moment at which the connection deadline passes, in milliseconds, if it
/// fits in a `u64`.
pub open spec fn deadline_of(start_ms: u64, max_connection_deadline_secs: u64) -> Option<u64> {
    let d = start_ms + max_connection_deadline_secs * 1000;
    if d <= u64::MAX {
        Some(d as u64)
    } else {
        None
    }
}

/// The state that the driver's decisions rest on.
pub struct StateSyncDriver {
    driver_configuration: DriverConfiguration,
    bootstrapped: bool,
    sync_request: Option<ConsensusSyncRequest>,
    start_time_ms: Option<u64>,
}

impl StateSyncDriver {
    pub closed spec fn configuration(&self) -> DriverConfiguration {
        self.driver_configuration
    }

    /// Whether the bootstrapper has finished, as far as the driver has seen.
    pub closed spec fn bootstrapped(&self) -> bool {
        self.bootstrapped
    }

    /// The active sync request of consensus, if any.
    pub closed spec fn sync_request(&self) -> Option<ConsensusSyncRequest> {
        self.sync_request
    }

    /// When the driver started, in milliseconds.
    pub closed spec fn start_time(&self) -> Option<u64> {
        self.start_time_ms
    }

    pub open spec fn spec_is_validator(&self) -> bool {
        self.configuration().role == RoleType::Validator
    }

    pub open spec fn spec_consensus_executing(&self) -> bool {
        self.spec_is_validator() && self.bootstrapped() && self.sync_request().is_none()
    }

    /// Whether the node bootstraps on its own at `now_ms`.
    pub open spec fn spec_auto_bootstrap(&self, now_ms: u64) -> bool {
        &&& !self.bootstrapped()
        &&& self.spec_is_validator()
        &&& self.configuration().waypoint.is_genesis()
        &&& self.start_time().is_some()
        &&& deadline_of(
            self.start_time().unwrap(),
            self.configuration().config.max_connection_deadline_secs,
        ) matches Some(d)
        &&& now_ms >= d
    }

    /// What the driver does on a tick once the sync request has been checked.
    pub open spec fn spec_dispatch(&self) -> ProgressAction {
        if self.spec_consensus_executing() {
            ProgressAction::ConsensusExecuting
        } else if self.bootstrapped() {
            ProgressAction::DriveContinuousSyncer(self.sync_request())
        } else {
            ProgressAction::DriveBootstrapper
        }
    }

    /// How a consensus notification is handled.
    pub open spec fn spec_consensus_decision(&self, notification: ConsensusNotification) -> ConsensusDecision {
        match consensus_verdict(self.configuration().role, self.bootstrapped()) {
            Err(e) => ConsensusDecision::Reject(e),
            Ok(()) => match notification {
                ConsensusNotification::NotifyCommit => ConsensusDecision::HandleCommit,
                ConsensusNotification::SyncToTarget { target_version } =>
                    ConsensusDecision::HandleSyncToTarget(target_version),
            },
        }
    }

    /// The answer to a request of consensus to sync to `target_version`, and
    /// the sync request kept afterwards.
    pub open spec fn spec_sync_notification(
        &self,
        target_version: u64,
        latest_synced_ledger_info_version: u64,
        now_ms: u64,
    ) -> (Result<SyncRequestStatus, DriverError>, Option<ConsensusSyncRequest>) {
        match consensus_verdict(self.configuration().role, self.bootstrapped()) {
            Err(e) => (Err(e), self.sync_request()),
            Ok(()) => if target_version <= latest_synced_ledger_info_version {
                (Ok(SyncRequestStatus::Satisfied), self.sync_request())
            } else {
                (
                    Ok(SyncRequestStatus::Pending),
                    Some(ConsensusSyncRequest { target_version, last_commit_timestamp_ms: now_ms }),
                )
            },
        }
    }

    /// What a progress tick does first.
    pub open spec fn spec_drive_progress(&self, global_data_summary_is_empty: bool, now_ms: u64) -> ProgressAction {
        if global_data_summary_is_empty {
            if self.spec_auto_bootstrap(now_ms) {
                ProgressAction::CompleteBootstrapping
            } else {
                ProgressAction::Skip
            }
        } else if self.sync_request().is_some() {
            ProgressAction::CheckSyncRequest
        } else {
            self.spec_dispatch()
        }
    }

    pub fn new(driver_configuration: DriverConfiguration) -> (r: Self)
        ensures
            r.configuration() == driver_configuration,
            !r.bootstrapped(),
            r.sync_request().is_none(),
            r.start_time().is_none(),
    {
        StateSyncDriver {
            driver_configuration,
            bootstrapped: false,
            sync_request: None,
            start_time_ms: None,
        }
    }

    /// Records the moment at which the driver loop starts.
    pub fn start_driver(&mut self, now_ms: u64)
        ensures
            final(self).start_time() == Some(now_ms),
            final(self).configuration() == old(self).configuration(),
            final(self).bootstrapped() == old(self).bootstrapped(),
            final(self).sync_request() == old(self).sync_request(),
    {
        self.start_time_ms = Some(now_ms);
    }

    pub fn driver_configuration(&self) -> (r: DriverConfiguration)
        ensures
            r == self.configuration(),
    {
        self.driver_configuration
    }

    pub fn is_bootstrapped(&self) -> (r: bool)
        ensures
            r == self.bootstrapped(),
    {
        self.bootstrapped
    }

    pub fn active_sync_request(&self) -> (r: bool)
        ensures
            r == self.sync_request().is_some(),
    {
        self.sync_request.is_some()
    }

    pub fn consensus_sync_request(&self) -> (r: Option<ConsensusSyncRequest>)
        ensures
            r == self.sync_request(),
    {
        self.sync_request
    }

    pub fn start_time_ms(&self) -> (r: Option<u64>)
        ensures
            r == self.start_time(),
    {
        self.start_time_ms
    }

    pub fn is_validator(&self) -> (r: bool)
        ensures
            r == self.spec_is_validator(),
    {
        self.driver_configuration.role == RoleType::Validator
    }

    /// Whether consensus drives the ledger itself: the node is a bootstrapped
    /// validator with no sync request outstanding.
    pub fn check_if_consensus_executing(&self) -> (r: bool)
        ensures
            r == self.spec_consensus_executing(),
    {
        self.is_validator() && self.bootstrapped && self.sync_request.is_none()
    }

    /// Checks a consensus notification against the node's role and phase.
    pub fn verify_consensus_notification(&self) -> (r: Result<(), DriverError>)
        ensures
            r == consensus_verdict(self.configuration().role, self.bootstrapped()),
    {
        if self.driver_configuration.role == RoleType::FullNode {
            Err(DriverError::FullNodeConsensusNotification)
        } else if !self.bootstrapped {
            Err(DriverError::BootstrapNotComplete)
        } else {
            Ok(())
        }
    }

    /// Decides how a consensus notification is handled. A notification that
    /// fails verification is answered with the error and goes no further.
    pub fn handle_consensus_notification(&self, notification: ConsensusNotification) -> (r:
        ConsensusDecision)
        ensures
            r == self.spec_consensus_decision(notification),
    {
        match self.verify_consensus_notification() {
            Err(e) => ConsensusDecision::Reject(e),
            Ok(()) => match notification {
                ConsensusNotification::NotifyCommit => ConsensusDecision::HandleCommit,
                ConsensusNotification::SyncToTarget { target_version } =>
                    ConsensusDecision::HandleSyncToTarget(target_version),
            },
        }
    }

    /// Registers a request of consensus to sync to `target_version`, given the
    /// version of the latest synced ledger info. A request that is already met
    /// is answered at once and not kept; one that is not replaces any earlier
    /// request. A notification that fails verification changes nothing.
    pub fn handle_consensus_sync_notification(
        &mut self,
        target_version: u64,
        latest_synced_ledger_info_version: u64,
        now_ms: u64,
    ) -> (r: Result<SyncRequestStatus, DriverError>)
        ensures
            final(self).configuration() == old(self).configuration(),
            final(self).bootstrapped() == old(self).bootstrapped(),
            final(self).start_time() == old(self).start_time(),
            (r, final(self).sync_request()) == old(self).spec_sync_notification(
                target_version,
                latest_synced_ledger_info_version,
                now_ms,
            ),
    {
        match self.verify_consensus_notification() {
            Err(e) => Err(e),
            Ok(()) => {
                if target_version <= latest_synced_ledger_info_version {
                    Ok(SyncRequestStatus::Satisfied)
                } else {
                    self.sync_request = Some(
                        ConsensusSyncRequest { target_version, last_commit_timestamp_ms: now_ms },
                    );
                    Ok(SyncRequestStatus::Pending)
                }
            },
        }
    }

    /// Checks the active sync request against the latest synced ledger info.
    /// A request that has been reached is cleared and returned, so that
    /// consensus can be told.
    pub fn check_sync_request_progress(&mut self, latest_synced_ledger_info_version: u64) -> (r:
        Option<ConsensusSyncRequest>)
        ensures
            final(self).configuration() == old(self).configuration(),
            final(self).bootstrapped() == old(self).bootstrapped(),
            final(self).start_time() == old(self).start_time(),
            match old(self).sync_request() {
                Some(req) => if req.target_version <= latest_synced_ledger_info_version {
                    r == Some(req) && final(self).sync_request().is_none()
                } else {
                    r.is_none() && final(self).sync_request() == Some(req)
                },
                None => r.is_none() && final(self).sync_request().is_none(),
            },
    {
        match self.sync_request {
            Some(req) => {
                if req.target_version <= latest_synced_ledger_info_version {
                    self.sync_request = None;
                    Some(req)
                } else {
                    None
                }
            },
            None => None,
        }
    }

    /// Records that transactions were committed at `now_ms`: the active sync
    /// request, if any, takes that moment as its last commit.
    pub fn handle_committed_transactions(&mut self, now_ms: u64)
        ensures
            final(self).sync_request() == refreshed(old(self).sync_request(), now_ms),
            final(self).configuration() == old(self).configuration(),
            final(self).bootstrapped() == old(self).bootstrapped(),
            final(self).start_time() == old(self).start_time(),
    {
        if let Some(req) = self.sync_request {
            self.sync_request = Some(
                ConsensusSyncRequest { last_commit_timestamp_ms: now_ms, ..req },
            );
        }
    }

    /// Picks the stream to terminate after an error notification: the
    /// continuous syncer's once bootstrapped, the bootstrapper's before.
    pub fn handle_error_notification(&self, notification_id: u64) -> (r: StreamTermination)
        ensures
            r.owner == (if self.bootstrapped() {
                StreamOwner::ContinuousSyncer
            } else {
                StreamOwner::Bootstrapper
            }),
            r.notification_id == notification_id,
            r.feedback == NotificationFeedback::InvalidPayloadData,
    {
        let owner = if self.bootstrapped {
            StreamOwner::ContinuousSyncer
        } else {
            StreamOwner::Bootstrapper
        };
        StreamTermination {
            owner,
            notification_id,
            feedback: NotificationFeedback::InvalidPayloadData,
        }
    }

    /// Whether the node bootstraps on its own at `now_ms`: a validator with a
    /// genesis waypoint that is not bootstrapped once the connection deadline
    /// has passed. A deadline that overflows never passes.
    pub fn check_auto_bootstrapping(&self, now_ms: u64) -> (r: bool)
        ensures
            r == self.spec_auto_bootstrap(now_ms),
    {
        if !self.bootstrapped && self.is_validator() && self.driver_configuration.waypoint.version()
            == 0 {
            match self.start_time_ms {
                Some(start_ms) => match connection_deadline(
                    start_ms,
                    self.driver_configuration.config.max_connection_deadline_secs,
                ) {
                    Some(deadline) => now_ms >= deadline,
                    None => false,
                },
                None => false,
            }
        } else {
            false
        }
    }

    /// Decides what a progress tick does first. Without peers only the
    /// deadline for bootstrapping alone is checked; with an active sync
    /// request its progress is checked before anything is driven.
    pub fn drive_progress(&self, global_data_summary_is_empty: bool, now_ms: u64) -> (r:
        ProgressAction)
        ensures
            r == self.spec_drive_progress(global_data_summary_is_empty, now_ms),
    {
        if global_data_summary_is_empty {
            if self.check_auto_bootstrapping(now_ms) {
                ProgressAction::CompleteBootstrapping
            } else {
                ProgressAction::Skip
            }
        } else if self.sync_request.is_some() {
            ProgressAction::CheckSyncRequest
        } else {
            self.dispatch_progress()
        }
    }

    /// Decides which collaborator a progress tick drives, once the sync
    /// request has been checked.
    pub fn dispatch_progress(&self) -> (r: ProgressAction)
        ensures
            r == self.spec_dispatch(),
    {
        if self.check_if_consensus_executing() {
            ProgressAction::ConsensusExecuting
        } else if self.bootstrapped {
            ProgressAction::DriveContinuousSyncer(self.sync_request)
        } else {
            ProgressAction::DriveBootstrapper
        }
    }

    /// Takes in what the bootstrapper reports of itself. Once bootstrapped,
    /// the driver stays bootstrapped.
    pub fn update_bootstrap_status(&mut self, is_bootstrapped: bool)
        ensures
            final(self).bootstrapped() == (old(self).bootstrapped() || is_bootstrapped),
            final(self).configuration() == old(self).configuration(),
            final(self).sync_request() == old(self).sync_request(),
            final(self).start_time() == old(self).start_time(),
    {
        if is_bootstrapped {
            self.bootstrapped = true;
        }
    }
}

/// The moment at which the connection deadline passes, or `None` where it
/// does not fit in a `u64`.
pub fn connection_deadline(start_ms: u64, max_connection_deadline_secs: u64) -> (r: Option<u64>)
    ensures
        r == deadline_of(start_ms, max_connection_deadline_secs),
{
    match max_connection_deadline_secs.checked_mul(1000) {
        Some(ms) => start_ms.checked_add(ms),
        None => None,
    }
}

/// Picks the transactions that end bootstrapping out of an account commit
/// notification: present exactly when every account is synced.
pub fn handle_committed_accounts<T>(committed_accounts: CommittedAccounts<T>) -> (r: Option<T>)
    requires
        committed_accounts.all_accounts_synced ==> committed_accounts.committed_transaction.is_some(),
    ensures
        committed_accounts.all_accounts_synced ==> r == committed_accounts.committed_transaction,
        !committed_accounts.all_accounts_synced ==> r.is_none(),
{
    if committed_accounts.all_accounts_synced {
        committed_accounts.committed_transaction
    } else {
        None
    }
}

/// What follows an attempt to terminate a stream: a failure is fatal.
pub fn termination_verdict<E>(result: Result<(), E>) -> (r: TerminationVerdict)
    ensures
        r == (if result is Ok {
            TerminationVerdict::Continue
        } else {
            TerminationVerdict::Abort
        }),
{
    match result {
        Ok(()) => TerminationVerdict::Continue,
        Err(_) => TerminationVerdict::Abort,
    }
}

/// Whether the driver counts as bootstrapped after starting from `bootstrapped`
/// and taking in each of `reports` in turn, as `update_bootstrap_status` does.
pub open spec fn bootstrapped_after(bootstrapped: bool, reports: Seq<bool>) -> bool
    decreases reports.len(),
{
    if reports.len() == 0 {
        bootstrapped
    } else {
        bootstrapped_after(bootstrapped, reports.drop_last()) || reports.last()
    }
}

/// A full node rejects every consensus notification with
/// `FullNodeConsensusNotification`: neither a commit nor a sync request is
/// handed on, and no sync request is kept.
pub proof fn lemma_full_node_rejects_consensus(
    driver: StateSyncDriver,
    notification: ConsensusNotification,
    target_version: u64,
    latest_synced_ledger_info_version: u64,
    now_ms: u64,
)
    requires
        driver.configuration().role == RoleType::FullNode,
    ensures
        driver.spec_consensus_decision(notification) == ConsensusDecision::Reject(
            DriverError::FullNodeConsensusNotification,
        ),
        driver.spec_sync_notification(target_version, latest_synced_ledger_info_version, now_ms)
            == (Err::<SyncRequestStatus, DriverError>(DriverError::FullNodeConsensusNotification), driver.sync_request()),
{
}

/// A validator that is not bootstrapped rejects every consensus notification
/// with `BootstrapNotComplete`, and its sync request stays as it was.
pub proof fn lemma_consensus_waits_for_bootstrap(
    driver: StateSyncDriver,
    notification: ConsensusNotification,
    target_version: u64,
    latest_synced_ledger_info_version: u64,
    now_ms: u64,
)
    requires
        driver.configuration().role == RoleType::Validator,
        !driver.bootstrapped(),
    ensures
        driver.spec_consensus_decision(notification) == ConsensusDecision::Reject(
            DriverError::BootstrapNotComplete,
        ),
        driver.spec_sync_notification(target_version, latest_synced_ledger_info_version, now_ms)
            == (Err::<SyncRequestStatus, DriverError>(DriverError::BootstrapNotComplete), driver.sync_request()),
{
}

/// Once bootstrapped, always bootstrapped: whatever the bootstrapper reports
/// later, the driver never goes back to bootstrapping.
pub proof fn lemma_bootstrapped_is_permanent(bootstrapped: bool, reports: Seq<bool>, i: int, j: int)
    requires
        0 <= i <= j <= reports.len(),
        bootstrapped_after(bootstrapped, reports.take(i)),
    ensures
        bootstrapped_after(bootstrapped, reports.take(j)),
    decreases j - i,
{
    if i < j {
        lemma_bootstrapped_is_permanent(bootstrapped, reports, i, j - 1);
        assert(reports.take(j).drop_last() =~= reports.take(j - 1));
    }
}

/// Committing transactions at a later moment than the last commit moves the
/// active sync request's last commit timestamp strictly forward, and keeps
/// its target.
pub proof fn lemma_commit_advances_timestamp(request: ConsensusSyncRequest, now_ms: u64)
    requires
        now_ms > request.last_commit_timestamp_ms,
    ensures
        refreshed(Some(request), now_ms) matches Some(r) && r.last_commit_timestamp_ms
            > request.last_commit_timestamp_ms && r.target_version == request.target_version,
{
}

/// A tick without peers drives neither the bootstrapper nor the continuous
/// syncer: at most it marks bootstrapping as complete.
pub proof fn lemma_no_peers_drives_nothing(driver: StateSyncDriver, now_ms: u64)
    ensures
        driver.spec_drive_progress(true, now_ms) == (if driver.spec_auto_bootstrap(now_ms) {
            ProgressAction::CompleteBootstrapping
        } else {
            ProgressAction::Skip
        }),
{
}

} // verus!
