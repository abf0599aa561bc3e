//! One test's execution: publish a request, await the correlated reply,
//! have it asserted, and emit exactly one result.
//!
//! The instance is a state machine. It is created with a fresh correlation
//! id, moves to awaiting once the request is published, inspects each
//! delivery of the reply queue in turn — every delivery is acknowledged
//! exactly once, matched or not — and, once the delivery carrying its own
//! correlation id arrives, turns the assertion outcome into the single
//! [`TestResult`] of the run. The broker calls themselves (publish,
//! consume, acknowledge) are performed by the caller between steps; the
//! machine decides every step and keeps the acknowledgement and emission
//! discipline.

use crate::config::AmqpInstanceConfig;
use crate::error::{Error, ErrorKind};
use crate::json::str_eq;
use crate::json_text::{json_text, json_to_string};
use crate::suite::Test;
use crate::test_result::TestResult;
use std::sync::Arc;
use vstd::prelude::*;
use vstd::string::StringExecFns;

verus! {

/// Relies on uuid::Uuid::new_v4 and the hyphenated display form of the
/// uuid crate: a fresh random UUID, rendered as 36 characters.
#[verifier::external_body]
fn fresh_uuid_string() -> (r: String)
    ensures
        r@.len() == 36,
{
    uuid::Uuid::new_v4().to_string()
}

/// The properties a published request carries.
pub struct MessageProperties {
    pub content_type: String,
    pub correlation_id: String,
    pub reply_to: String,
}

/// What to do with one delivery: acknowledge it in any case, and either
/// discard it or hand its body to the assertion runner. There is no
/// unacknowledged variant: each delivery is acknowledged exactly once,
/// before the next one is consumed.
#[derive(Debug, Clone, Copy, PartialEq, Eq, Structural)]
pub enum DeliveryDisposition {
    /// The correlation id is absent or foreign: acknowledge and skip.
    AckAndSkip,
    /// The delivery answers this instance: acknowledge and assert its body.
    AckAndAssert,
}

/// Where a run instance stands.
#[derive(Debug, Clone, Copy, PartialEq, Eq, Structural)]
pub enum RunPhase {
    /// Created; the request has not been published yet.
    Created,
    /// The request is out; deliveries are being consumed.
    AwaitingReply,
    /// The matched delivery arrived; its assertion is running.
    Asserting,
    /// The single result of this run has been emitted.
    Done,
}

/// One test's run: its test, queue names, per-instance options, fresh
/// correlation id, and the progress of the request/reply protocol.
pub struct RunInstance {
    pub test: Arc<Test>,
    pub request_queue_name: String,
    pub reply_queue_name: String,
    pub amqp_instance: AmqpInstanceConfig,
    pub correlation_id: String,
    pub phase: RunPhase,
    pub deliveries_seen: Ghost<nat>,
    pub acks_sent: Ghost<nat>,
    pub results_emitted: Ghost<nat>,
}

impl RunInstance {
    /// The acknowledgement and emission discipline: every consumed
    /// delivery has been acknowledged, and exactly one result exists once
    /// the run is done, none before.
    pub open spec fn wf(&self) -> bool {
        &&& self.acks_sent@ == self.deliveries_seen@
        &&& self.results_emitted@ == if self.phase is Done {
            1nat
        } else {
            0nat
        }
    }

    /// A new run instance for one test, with a fresh correlation id.
    pub fn new(
        test: Arc<Test>,
        request_queue_name: String,
        reply_queue_name: String,
        amqp_instance: AmqpInstanceConfig,
    ) -> (r: RunInstance)
        ensures
            r.test == test,
            r.request_queue_name@ == request_queue_name@,
            r.reply_queue_name@ == reply_queue_name@,
            r.amqp_instance == amqp_instance,
            r.correlation_id@.len() == 36,
            r.phase is Created,
            r.deliveries_seen@ == 0,
            r.acks_sent@ == 0,
            r.results_emitted@ == 0,
            r.wf(),
    {
        RunInstance {
            test,
            request_queue_name,
            reply_queue_name,
            amqp_instance,
            correlation_id: fresh_uuid_string(),
            phase: RunPhase::Created,
            deliveries_seen: Ghost(0),
            acks_sent: Ghost(0),
            results_emitted: Ghost(0),
        }
    }

    /// The correlation id this run publishes and matches replies against.
    pub fn correlation_id(&self) -> (r: &str)
        ensures
            r@ == self.correlation_id@,
    {
        self.correlation_id.as_str()
    }

    /// The serialized JSON request this run publishes.
    pub fn request_payload(&self) -> (r: String)
        ensures
            r@ == json_text(self.test@.request),
    {
        json_to_string(&self.test.request)
    }

    /// The properties of the published request: JSON content type, this
    /// run's correlation id, and the reply queue to answer on.
    pub fn publish_properties(&self) -> (r: MessageProperties)
        ensures
            r.content_type@ == "application/json"@,
            r.correlation_id@ == self.correlation_id@,
            r.reply_to@ == self.reply_queue_name@,
    {
        MessageProperties {
            content_type: "application/json".to_owned(),
            correlation_id: self.correlation_id.clone(),
            reply_to: self.reply_queue_name.clone(),
        }
    }

    /// A consumer tag unique to this subscription: the reply queue's name,
    /// a `#`, and a fresh UUID.
    pub fn consumer_tag(&self) -> (r: String)
        ensures
            exists|u: Seq<char>| u.len() == 36 && r@ == self.reply_queue_name@ + "#"@ + u,
    {
        let mut tag = self.reply_queue_name.clone();
        tag.append("#");
        let fresh = fresh_uuid_string();
        tag.append(fresh.as_str());
        proof {
            assert(tag@ == self.reply_queue_name@ + "#"@ + fresh@);
        }
        tag
    }

    /// Marks the request as published: the run now awaits its reply.
    pub fn note_published(&mut self)
        requires
            old(self).phase is Created,
        ensures
            final(self).phase is AwaitingReply,
            *final(self) == (RunInstance { phase: RunPhase::AwaitingReply, ..*old(self) }),
            old(self).wf() ==> final(self).wf(),
    {
        self.phase = RunPhase::AwaitingReply;
    }

    /// Decides one delivery of the reply queue. The delivery is
    /// acknowledged either way; it is handed to the assertion exactly when
    /// it carries this run's correlation id, and skipped otherwise.
    pub fn on_delivery(&mut self, delivery_correlation_id: Option<&str>) -> (d:
        DeliveryDisposition)
        requires
            old(self).phase is AwaitingReply,
        ensures
            final(self).deliveries_seen@ == old(self).deliveries_seen@ + 1,
            final(self).acks_sent@ == old(self).acks_sent@ + 1,
            (d is AckAndAssert <==> (delivery_correlation_id matches Some(c) && c@ == old(
                self,
            ).correlation_id@)),
            d is AckAndAssert ==> final(self).phase is Asserting,
            d is AckAndSkip ==> final(self).phase is AwaitingReply,
            final(self).results_emitted@ == old(self).results_emitted@,
            final(self).test == old(self).test,
            final(self).request_queue_name == old(self).request_queue_name,
            final(self).reply_queue_name == old(self).reply_queue_name,
            final(self).amqp_instance == old(self).amqp_instance,
            final(self).correlation_id == old(self).correlation_id,
            old(self).wf() ==> final(self).wf(),
    {
        proof {
            self.deliveries_seen@ = self.deliveries_seen@ + 1;
            self.acks_sent@ = self.acks_sent@ + 1;
        }
        let matched = match delivery_correlation_id {
            Some(c) => str_eq(c, self.correlation_id.as_str()),
            None => false,
        };
        if matched {
            self.phase = RunPhase::Asserting;
            DeliveryDisposition::AckAndAssert
        } else {
            DeliveryDisposition::AckAndSkip
        }
    }

    /// Turns the assertion outcome of the matched reply into the single
    /// result of this run: the test's name as id, success as is, and any
    /// assertion error re-tagged as a test assertion failure carrying the
    /// same message.
    pub fn make_result(&mut self, assert_outcome: Result<(), Error>) -> (r: TestResult)
        requires
            old(self).phase is Asserting,
        ensures
            r.id@ == old(self).test@.name,
            assert_outcome is Ok ==> r.result is Ok,
            assert_outcome matches Err(e) ==> (r.result matches Err(out) && out.kind
                == ErrorKind::TestAssertFailure && out.message@ == e.message@),
            final(self).phase is Done,
            final(self).results_emitted@ == old(self).results_emitted@ + 1,
            final(self).deliveries_seen@ == old(self).deliveries_seen@,
            final(self).acks_sent@ == old(self).acks_sent@,
            old(self).wf() ==> final(self).wf(),
    {
        proof {
            self.results_emitted@ = self.results_emitted@ + 1;
        }
        self.phase = RunPhase::Done;
        let id = self.test.name.clone();
        match assert_outcome {
            Ok(_) => TestResult::new(id, Ok(())),
            Err(assert_error) => {
                let message = assert_error.message().to_owned();
                TestResult::new(
                    id,
                    Err(Error::new(ErrorKind::TestAssertFailure, message)),
                )
            }
        }
    }

    /// The error for a broker that refused the publish.
    pub fn publish_failure(detail: &str) -> (r: Error)
        ensures
            r.kind == ErrorKind::InternalFailure,
            r.message@ == "failed to publish request: "@ + detail@,
    {
        Error::with_detail(ErrorKind::InternalFailure, "failed to publish request: ", detail)
    }

    /// The error for a broker that refused the consumer subscription.
    pub fn consume_failure(detail: &str) -> (r: Error)
        ensures
            r.kind == ErrorKind::InternalFailure,
            r.message@ == "failed to consume reply: "@ + detail@,
    {
        Error::with_detail(ErrorKind::InternalFailure, "failed to consume reply: ", detail)
    }

    /// The error for a reply stream that closed before the matched reply.
    pub fn no_reply_failure() -> (r: Error)
        ensures
            r.kind == ErrorKind::InternalFailure,
            r.message@ == "failed to get reply: no reply received"@,
    {
        Error::new(ErrorKind::InternalFailure, "failed to get reply: no reply received".to_owned())
    }

    /// The error for a reply stream that failed.
    pub fn reply_failure(detail: &str) -> (r: Error)
        ensures
            r.kind == ErrorKind::InternalFailure,
            r.message@ == "failed to get reply: "@ + detail@,
    {
        Error::with_detail(ErrorKind::InternalFailure, "failed to get reply: ", detail)
    }

    /// The error for an acknowledgement the broker refused.
    pub fn ack_failure(detail: &str) -> (r: Error)
        ensures
            r.kind == ErrorKind::InternalFailure,
            r.message@ == "failed to ack reply: "@ + detail@,
    {
        Error::with_detail(ErrorKind::InternalFailure, "failed to ack reply: ", detail)
    }

    /// The error for a result channel that refused the emitted result.
    pub fn send_result_failure(detail: &str) -> (r: Error)
        ensures
            r.kind == ErrorKind::InternalFailure,
            r.message@ == "failed to send result: "@ + detail@,
    {
        Error::with_detail(ErrorKind::InternalFailure, "failed to send result: ", detail)
    }
}

/// Every consumed delivery is acknowledged exactly once before the next
/// one is consumed: the acknowledgement count always equals the delivery
/// count. `new` establishes the discipline and every step keeps it.
pub proof fn lemma_every_delivery_acked(instance: RunInstance)
    requires
        instance.wf(),
    ensures
        instance.acks_sent@ == instance.deliveries_seen@,
{
}

/// A run that reached its matched reply emits exactly one result, and a
/// run that has not reached it emits none. `new` establishes the
/// discipline and every step keeps it.
pub proof fn lemma_single_result_emitted(instance: RunInstance)
    requires
        instance.wf(),
    ensures
        instance.phase is Done ==> instance.results_emitted@ == 1,
        !(instance.phase is Done) ==> instance.results_emitted@ == 0,
{
}

} // verus!
