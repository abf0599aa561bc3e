//! The broker configuration a suite file carries.
//!
//! Each suite names a request and a reply side; each side holds a queue
//! descriptor and four optional bundles: publish options and arguments,
//! consume options and arguments. The bundles are optional in the file but
//! required at run time: [`try_get_from_request_and_reply_amqp`] collects
//! them and reports the first missing one.

use crate::error::{Error, ErrorKind};
use crate::json::JsonValue;
use vstd::prelude::*;

verus! {

/// Options for declaring a queue; absent fields in the file read as false.
#[derive(Debug, Clone, Copy, PartialEq, Eq, Structural)]
pub struct QueueDeclareOptions {
    pub passive: bool,
    pub durable: bool,
    pub exclusive: bool,
    pub auto_delete: bool,
    pub nowait: bool,
}

/// Options attached to each publish; absent fields in the file read as false.
#[derive(Debug, Clone, Copy, PartialEq, Eq, Structural)]
pub struct BasicPublishOptions {
    pub mandatory: bool,
    pub immediate: bool,
}

/// Options attached to a consumer subscription; absent fields in the file
/// read as false.
#[derive(Debug, Clone, Copy, PartialEq, Eq, Structural)]
pub struct BasicConsumeOptions {
    pub no_local: bool,
    pub no_ack: bool,
    pub exclusive: bool,
    pub nowait: bool,
}

/// A table of broker arguments: the members of a JSON object, in document
/// order.
#[derive(Debug)]
pub struct FieldTable {
    pub entries: Vec<(String, JsonValue)>,
}

impl View for FieldTable {
    type V = Seq<(Seq<char>, crate::json::JsonView)>;

    open spec fn view(&self) -> Seq<(Seq<char>, crate::json::JsonView)> {
        crate::json::member_views(self.entries@)
    }
}

impl Clone for FieldTable {
    /// A deep copy with the same model.
    fn clone(&self) -> (res: Self)
        ensures
            res@ == self@,
    {
        FieldTable { entries: crate::json::clone_members(&self.entries) }
    }
}

/// The model of a queue descriptor.
pub struct AmqpQueueView {
    pub name: Seq<char>,
    pub declare_options: QueueDeclareOptions,
    pub declare_arguments: Seq<(Seq<char>, crate::json::JsonView)>,
}

/// A queue descriptor: its name and how to declare it.
#[derive(Debug, Clone)]
pub struct AmqpQueue {
    pub name: String,
    pub declare_options: QueueDeclareOptions,
    pub declare_arguments: FieldTable,
}

impl View for AmqpQueue {
    type V = AmqpQueueView;

    open spec fn view(&self) -> AmqpQueueView {
        AmqpQueueView {
            name: self.name@,
            declare_options: self.declare_options,
            declare_arguments: self.declare_arguments@,
        }
    }
}

impl AmqpQueue {
    /// The queue's name.
    pub fn name(&self) -> (r: &str)
        ensures
            r@ == self.name@,
    {
        self.name.as_str()
    }

    /// The options the queue is declared with.
    pub fn declare_options(&self) -> (r: &QueueDeclareOptions)
        ensures
            r == self.declare_options,
    {
        &self.declare_options
    }

    /// The arguments the queue is declared with.
    pub fn declare_arguments(&self) -> (r: &FieldTable)
        ensures
            r == self.declare_arguments,
    {
        &self.declare_arguments
    }
}

/// The model of one side's broker configuration.
pub struct AmqpView {
    pub queue: AmqpQueueView,
    pub publish_options: Option<BasicPublishOptions>,
    pub publish_arguments: Option<Seq<(Seq<char>, crate::json::JsonView)>>,
    pub consume_options: Option<BasicConsumeOptions>,
    pub consume_arguments: Option<Seq<(Seq<char>, crate::json::JsonView)>>,
}

/// One side's broker configuration: a queue and the optional option bundles.
#[derive(Debug, Clone)]
pub struct Amqp {
    pub queue: AmqpQueue,
    pub publish_options: Option<BasicPublishOptions>,
    pub publish_arguments: Option<FieldTable>,
    pub consume_options: Option<BasicConsumeOptions>,
    pub consume_arguments: Option<FieldTable>,
}

impl View for Amqp {
    type V = AmqpView;

    open spec fn view(&self) -> AmqpView {
        AmqpView {
            queue: self.queue@,
            publish_options: self.publish_options,
            publish_arguments: match self.publish_arguments {
                Some(ft) => Some(ft@),
                None => None,
            },
            consume_options: self.consume_options,
            consume_arguments: match self.consume_arguments {
                Some(ft) => Some(ft@),
                None => None,
            },
        }
    }
}

impl Amqp {
    /// The queue descriptor.
    pub fn queue(&self) -> (r: &AmqpQueue)
        ensures
            r == self.queue,
    {
        &self.queue
    }

    /// The publish options, when the file named them.
    pub fn publish_options(&self) -> (r: &Option<BasicPublishOptions>)
        ensures
            r == self.publish_options,
    {
        &self.publish_options
    }

    /// The publish arguments, when the file named them.
    pub fn publish_arguments(&self) -> (r: &Option<FieldTable>)
        ensures
            r == self.publish_arguments,
    {
        &self.publish_arguments
    }

    /// The consume options, when the file named them.
    pub fn consume_options(&self) -> (r: &Option<BasicConsumeOptions>)
        ensures
            r == self.consume_options,
    {
        &self.consume_options
    }

    /// The consume arguments, when the file named them.
    pub fn consume_arguments(&self) -> (r: &Option<FieldTable>)
        ensures
            r == self.consume_arguments,
    {
        &self.consume_arguments
    }
}

/// The option bundles one run instance publishes and consumes with.
#[derive(Debug, Clone)]
pub struct AmqpInstanceConfig {
    pub publish_options: BasicPublishOptions,
    pub publish_arguments: FieldTable,
    pub consume_options: BasicConsumeOptions,
    pub consume_arguments: FieldTable,
}

impl AmqpInstanceConfig {
    /// Bundles the four option sets.
    pub fn new(
        publish_options: BasicPublishOptions,
        publish_arguments: FieldTable,
        consume_options: BasicConsumeOptions,
        consume_arguments: FieldTable,
    ) -> (r: AmqpInstanceConfig)
        ensures
            r.publish_options == publish_options,
            r.publish_arguments@ == publish_arguments@,
            r.consume_options == consume_options,
            r.consume_arguments@ == consume_arguments@,
    {
        AmqpInstanceConfig { publish_options, publish_arguments, consume_options, consume_arguments }
    }

    /// The options each publish carries.
    pub fn publish_options(&self) -> (r: &BasicPublishOptions)
        ensures
            r == self.publish_options,
    {
        &self.publish_options
    }

    /// The arguments each publish carries.
    pub fn publish_arguments(&self) -> (r: &FieldTable)
        ensures
            r == self.publish_arguments,
    {
        &self.publish_arguments
    }

    /// The options each consumer subscription carries.
    pub fn consume_options(&self) -> (r: &BasicConsumeOptions)
        ensures
            r == self.consume_options,
    {
        &self.consume_options
    }

    /// The arguments each consumer subscription carries.
    pub fn consume_arguments(&self) -> (r: &FieldTable)
        ensures
            r == self.consume_arguments,
    {
        &self.consume_arguments
    }
}

/// Whether both sides carry every bundle a run instance needs: publish
/// options and arguments on the request side, consume options and arguments
/// on the reply side.
pub open spec fn instance_config_available(request_amqp: Amqp, reply_amqp: Amqp) -> bool {
    &&& request_amqp.publish_options is Some
    &&& request_amqp.publish_arguments is Some
    &&& reply_amqp.consume_options is Some
    &&& reply_amqp.consume_arguments is Some
}

/// Collects the per-instance option bundles from the request and reply
/// sides. The first missing bundle, checked in the order publish options,
/// publish arguments, consume options, consume arguments, is an internal
/// failure naming the side and the bundle.
pub fn try_get_from_request_and_reply_amqp(request_amqp: &Amqp, reply_amqp: &Amqp) -> (r: Result<
    AmqpInstanceConfig,
    Error,
>)
    ensures
        r is Ok <==> instance_config_available(*request_amqp, *reply_amqp),
        r is Ok ==> {
            &&& r->Ok_0.publish_options == request_amqp.publish_options->0
            &&& r->Ok_0.publish_arguments@ == request_amqp.publish_arguments->0@
            &&& r->Ok_0.consume_options == reply_amqp.consume_options->0
            &&& r->Ok_0.consume_arguments@ == reply_amqp.consume_arguments->0@
        },
        r is Err ==> r->Err_0.kind == ErrorKind::InternalFailure,
        r is Err ==> r->Err_0.message@ == if request_amqp.publish_options is None {
            "request amqp does not contain publish options"@
        } else if request_amqp.publish_arguments is None {
            "request amqp does not contain publish arguments"@
        } else if reply_amqp.consume_options is None {
            "reply amqp does not contain consume options"@
        } else {
            "reply amqp does not contain consume arguments"@
        },
{
    let publish_options = match &request_amqp.publish_options {
        Some(publish_options) => *publish_options,
        None => {
            return Err(
                Error::new(
                    ErrorKind::InternalFailure,
                    "request amqp does not contain publish options".to_owned(),
                ),
            );
        }
    };

    let publish_arguments = match &request_amqp.publish_arguments {
        Some(publish_arguments) => publish_arguments.clone(),
        None => {
            return Err(
                Error::new(
                    ErrorKind::InternalFailure,
                    "request amqp does not contain publish arguments".to_owned(),
                ),
            );
        }
    };

    let consume_options = match &reply_amqp.consume_options {
        Some(consume_options) => *consume_options,
        None => {
            return Err(
                Error::new(
                    ErrorKind::InternalFailure,
                    "reply amqp does not contain consume options".to_owned(),
                ),
            );
        }
    };

    let consume_arguments = match &reply_amqp.consume_arguments {
        Some(consume_arguments) => consume_arguments.clone(),
        None => {
            return Err(
                Error::new(
                    ErrorKind::InternalFailure,
                    "reply amqp does not contain consume arguments".to_owned(),
                ),
            );
        }
    };

    Ok(AmqpInstanceConfig::new(publish_options, publish_arguments, consume_options, consume_arguments))
}

} // verus!
