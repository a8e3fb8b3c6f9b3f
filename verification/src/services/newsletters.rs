//! Dispatching a newsletter to the confirmed subscribers.

use crate::domain::subscriber_email::SubscriberEmail;
use crate::email_client::TransportError;
use crate::store::memory::{recipient_rows, Recipient, SubscriptionStore};
use crate::store::state::{RecipientRow, StoreError};
use vstd::prelude::*;

verus! {

/// One recipient the newsletter did not reach, and why.
pub struct FailureRow {
    pub recipient: RecipientRow,
    pub error: TransportError,
}

/// What a dispatch reports.
#[verifier::ext_equal]
pub struct ReportRow {
    pub sent: nat,
    pub failed: nat,
    pub failures: Seq<FailureRow>,
}

/// The report over the first `outcomes.len()` of `recipients`, where
/// `outcomes[i]` is what sending to `recipients[i]` came to: every outcome
/// is counted once, as sent or as failed, and every failure is listed with
/// its recipient, in the order of sending.
pub open spec fn report_of(
    recipients: Seq<RecipientRow>,
    outcomes: Seq<Result<(), TransportError>>,
) -> ReportRow
    decreases outcomes.len(),
{
    if outcomes.len() == 0 {
        ReportRow { sent: 0, failed: 0, failures: Seq::empty() }
    } else {
        let earlier = report_of(recipients, outcomes.drop_last());
        match outcomes.last() {
            Ok(()) => ReportRow { sent: earlier.sent + 1, ..earlier },
            Err(error) => ReportRow {
                failed: earlier.failed + 1,
                failures: earlier.failures.push(
                    FailureRow { recipient: recipients[outcomes.len() - 1], error },
                ),
                ..earlier
            },
        }
    }
}

/// Every outcome is counted exactly once.
pub proof fn lemma_report_counts_every_outcome(
    recipients: Seq<RecipientRow>,
    outcomes: Seq<Result<(), TransportError>>,
)
    ensures
        report_of(recipients, outcomes).sent + report_of(recipients, outcomes).failed
            == outcomes.len(),
        report_of(recipients, outcomes).failures.len() == report_of(recipients, outcomes).failed,
    decreases outcomes.len(),
{
    if outcomes.len() > 0 {
        lemma_report_counts_every_outcome(recipients, outcomes.drop_last());
    }
}

/// A recipient the newsletter did not reach, and why.
#[derive(Debug)]
pub struct DeliveryFailure {
    recipient: Recipient,
    error: TransportError,
}

impl View for DeliveryFailure {
    type V = FailureRow;

    closed spec fn view(&self) -> FailureRow {
        FailureRow { recipient: self.recipient@, error: self.error }
    }
}

impl DeliveryFailure {
    pub fn recipient(&self) -> (recipient: &Recipient)
        ensures
            recipient@ == self@.recipient,
    {
        &self.recipient
    }

    pub fn error(&self) -> (error: TransportError)
        ensures
            error == self@.error,
    {
        self.error
    }
}

/// The rows that a sequence of failures stands for.
pub open spec fn failure_rows(failures: Seq<DeliveryFailure>) -> Seq<FailureRow> {
    Seq::new(failures.len(), |i: int| failures[i]@)
}

/// The outcome of one dispatch: how many emails were sent, how many
/// failed, and each failure.
#[derive(Debug)]
pub struct DispatchReport {
    sent: usize,
    failed: usize,
    failures: Vec<DeliveryFailure>,
}

impl View for DispatchReport {
    type V = ReportRow;

    closed spec fn view(&self) -> ReportRow {
        ReportRow {
            sent: self.sent as nat,
            failed: self.failed as nat,
            failures: failure_rows(self.failures@),
        }
    }
}

impl DispatchReport {
    pub fn sent(&self) -> (n: usize)
        ensures
            n == self@.sent,
    {
        self.sent
    }

    pub fn failed(&self) -> (n: usize)
        ensures
            n == self@.failed,
    {
        self.failed
    }

    pub fn failures(&self) -> (failures: &Vec<DeliveryFailure>)
        ensures
            failure_rows(failures@) == self@.failures,
    {
        &self.failures
    }
}

/// Why a dispatch could not run at all.
#[derive(Clone, Copy, Debug, PartialEq, Eq, Structural)]
pub enum DispatchError {
    /// The confirmed subscribers could not be listed.
    ListingFailed,
}

/// The HTTP status that answers a request to dispatch: 200 where the
/// dispatch ran, whatever its report says of single recipients, and 500
/// where it could not run at all.
pub fn dispatch_status(res: &Result<DispatchReport, DispatchError>) -> (status: u16)
    ensures
        status == if res is Ok {
            200u16
        } else {
            500u16
        },
{
    match res {
        Ok(_) => 200,
        Err(_) => 500,
    }
}

/// The progress of a dispatch: the recipients, and the outcomes recorded
/// so far, for the first so many of them.
pub struct DispatchRow {
    pub recipients: Seq<RecipientRow>,
    pub outcomes: Seq<Result<(), TransportError>>,
}

/// A dispatch in progress. It names the next recipient, takes the outcome
/// of sending to it, and goes on to the one after, whatever the outcome
/// was.
pub struct Dispatch {
    recipients: Vec<Recipient>,
    outcomes: Ghost<Seq<Result<(), TransportError>>>,
    report: DispatchReport,
}

impl View for Dispatch {
    type V = DispatchRow;

    closed spec fn view(&self) -> DispatchRow {
        DispatchRow { recipients: recipient_rows(self.recipients@), outcomes: self.outcomes@ }
    }
}

impl Dispatch {
    /// No recipient has more than one outcome, and the report so far is
    /// the report of the outcomes so far.
    #[verifier::type_invariant]
    spec fn reports_every_outcome(self) -> bool {
        &&& self.outcomes@.len() <= self.recipients@.len()
        &&& self.report@ == report_of(recipient_rows(self.recipients@), self.outcomes@)
    }

    /// Starts a dispatch to the recipients given: none has its outcome yet.
    pub fn over(recipients: Vec<Recipient>) -> (dispatch: Dispatch)
        ensures
            dispatch@.recipients == recipient_rows(recipients@),
            dispatch@.outcomes.len() == 0,
    {
        let report = DispatchReport { sent: 0, failed: 0, failures: Vec::new() };
        assert(report@ =~= report_of(recipient_rows(recipients@), Seq::empty()));
        Dispatch { recipients, outcomes: Ghost(Seq::empty()), report }
    }

    /// Starts a dispatch from the answer of the store to the listing of
    /// the confirmed subscribers. A failed listing is the one fatal error.
    pub fn start(listing: Result<Vec<Recipient>, StoreError>) -> (res: Result<
        Dispatch,
        DispatchError,
    >)
        ensures
            res is Ok <==> listing is Ok,
            res matches Ok(dispatch) ==> dispatch@.recipients == recipient_rows(listing->Ok_0@)
                && dispatch@.outcomes.len() == 0,
            res matches Err(e) ==> e == DispatchError::ListingFailed,
    {
        match listing {
            Ok(recipients) => Ok(Dispatch::over(recipients)),
            Err(_) => Err(DispatchError::ListingFailed),
        }
    }

    /// How many recipients have their outcome, and how many there are.
    fn progress(&self) -> (progress: (usize, usize))
        ensures
            progress.0 == self@.outcomes.len(),
            progress.1 == self@.recipients.len(),
            progress.0 <= progress.1,
    {
        proof {
            use_type_invariant(self);
            lemma_report_counts_every_outcome(recipient_rows(self.recipients@), self.outcomes@);
        }
        let total = self.recipients.len();
        (self.report.sent + self.report.failed, total)
    }

    /// The recipient to send to next; `None` when every recipient has its
    /// outcome.
    pub fn next_recipient(&self) -> (next: Option<&Recipient>)
        ensures
            self@.outcomes.len() <= self@.recipients.len(),
            next is Some <==> self@.outcomes.len() < self@.recipients.len(),
            next matches Some(recipient) ==> recipient@ == self@.recipients[self@.outcomes.len() as int],
    {
        let (done, total) = self.progress();
        if done < total {
            Some(&self.recipients[done])
        } else {
            None
        }
    }

    /// Records what sending to the next recipient came to. A failure is
    /// listed with its recipient and does not end the dispatch. With no
    /// recipient left, nothing is recorded.
    pub fn record(&mut self, outcome: Result<(), TransportError>)
        ensures
            final(self)@.recipients == old(self)@.recipients,
            final(self)@.outcomes == if old(self)@.outcomes.len() < old(self)@.recipients.len() {
                old(self)@.outcomes.push(outcome)
            } else {
                old(self)@.outcomes
            },
    {
        let (done, total) = self.progress();
        if done < total {
            let mut run = Dispatch::over(Vec::new());
            core::mem::swap(self, &mut run);
            proof {
                use_type_invariant(&run);
                lemma_report_counts_every_outcome(recipient_rows(run.recipients@), run.outcomes@);
            }
            let Dispatch { recipients, outcomes, report } = run;
            let DispatchReport { mut sent, mut failed, mut failures } = report;
            let ghost rows = recipient_rows(recipients@);
            let ghost earlier = failure_rows(failures@);
            match outcome {
                Ok(()) => {
                    sent = sent + 1;
                },
                Err(error) => {
                    let recipient = Recipient::new(
                        recipients[done].id(),
                        recipients[done].email().clone(),
                    );
                    failed = failed + 1;
                    failures.push(DeliveryFailure { recipient, error });
                    assert(failure_rows(failures@) =~= earlier.push(
                        FailureRow { recipient: rows[done as int], error },
                    ));
                },
            }
            let report = DispatchReport { sent, failed, failures };
            assert(outcomes@.push(outcome).drop_last() =~= outcomes@);
            *self = Dispatch { recipients, outcomes: Ghost(outcomes@.push(outcome)), report };
        }
    }

    /// Whether every recipient has its outcome.
    pub fn is_finished(&self) -> (finished: bool)
        ensures
            finished == (self@.outcomes.len() == self@.recipients.len()),
    {
        let (done, total) = self.progress();
        done == total
    }

    /// The report over the outcomes recorded so far.
    pub fn into_report(self) -> (report: DispatchReport)
        ensures
            report@ == report_of(self@.recipients, self@.outcomes),
    {
        proof {
            use_type_invariant(&self);
        }
        self.report
    }
}

/// Whether `outcome` is something that `send` may answer for the address
/// `email`.
pub open spec fn answered<F>(send: F, email: Seq<char>, outcome: Result<(), TransportError>) -> bool
    where F: Fn(&SubscriberEmail) -> Result<(), TransportError>
{
    exists|address: SubscriberEmail| address@ == email && send.ensures((&address,), outcome)
}

/// Sends the newsletter to every confirmed subscriber of the store, once
/// each, in order of insertion, and reports what came of it. `send` is the
/// transport: it makes one attempt for one recipient. A failed attempt is
/// reported and the dispatch goes on.
pub fn dispatch<F>(store: &SubscriptionStore, send: F) -> (report: DispatchReport)
    where F: Fn(&SubscriberEmail) -> Result<(), TransportError>
    requires
        forall|recipient: &SubscriberEmail| send.requires((recipient,)),
    ensures
        exists|outcomes: Seq<Result<(), TransportError>>|
            {
                &&& outcomes.len() == store@.confirmed_recipients().len()
                &&& report@ == #[trigger] report_of(store@.confirmed_recipients(), outcomes)
                &&& forall|i: int|
                    0 <= i < outcomes.len() ==> answered(
                        send,
                        store@.confirmed_recipients()[i].email,
                        #[trigger] outcomes[i],
                    )
            },
{
    let mut run = Dispatch::over(store.list_confirmed_subscribers());
    let ghost rows = store@.confirmed_recipients();
    loop
        invariant
            run@.recipients == rows,
            forall|recipient: &SubscriberEmail| send.requires((recipient,)),
            forall|i: int|
                0 <= i < run@.outcomes.len() ==> answered(send, rows[i].email, #[trigger] run@.outcomes[i]),
        ensures
            run@.recipients == rows,
            run@.outcomes.len() == rows.len(),
            forall|i: int|
                0 <= i < run@.outcomes.len() ==> answered(send, rows[i].email, #[trigger] run@.outcomes[i]),
        decreases rows.len() - run@.outcomes.len(),
    {
        let outcome = match run.next_recipient() {
            Some(recipient) => send(recipient.email()),
            None => {
                break ;
            },
        };
        run.record(outcome);
    }
    run.into_report()
}

} // verus!
