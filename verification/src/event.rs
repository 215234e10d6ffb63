//! Message and data-transfer entities and the lifecycle events that carry
//! them through the network actor's state machine.

use vstd::prelude::*;

verus! {

/// One logical unit of communication: immutable after creation, with a
/// globally unique id and an opaque payload the network layer never inspects.
pub struct Message {
    pub id: u64,
    pub src: String,
    pub dest: String,
    pub data: String,
}

/// Mathematical model of a `Message`: strings are viewed as `Seq<char>`.
pub ghost struct MessageView {
    pub id: u64,
    pub src: Seq<char>,
    pub dest: Seq<char>,
    pub data: Seq<char>,
}

impl View for Message {
    type V = MessageView;

    open spec fn view(&self) -> MessageView {
        MessageView { id: self.id, src: self.src@, dest: self.dest@, data: self.data@ }
    }
}

/// One bulk transfer: identity fields are threaded through the lifecycle
/// unchanged. `notification_dest` is who is told the transfer finished; it
/// may differ from the logical destination. Size units are abstract.
pub struct Data {
    pub id: u64,
    pub src: String,
    pub dest: String,
    pub size: u64,
    pub notification_dest: String,
}

/// Mathematical model of a `Data` transfer record.
pub ghost struct DataView {
    pub id: u64,
    pub src: Seq<char>,
    pub dest: Seq<char>,
    pub size: u64,
    pub notification_dest: Seq<char>,
}

impl View for Data {
    type V = DataView;

    open spec fn view(&self) -> DataView {
        DataView {
            id: self.id,
            src: self.src@,
            dest: self.dest@,
            size: self.size,
            notification_dest: self.notification_dest@,
        }
    }
}

/// One stage-transition signal in the message or transfer state machine.
///
/// Message lifecycle: `MessageSend` -> `MessageReceive` -> `MessageDelivery`.
/// Transfer lifecycle: `DataTransferRequest` -> `StartDataTransfer` ->
/// `DataReceive` -> `DataTransferCompleted`.
pub enum NetEvent {
    MessageSend { message: Message },
    MessageReceive { message: Message },
    MessageDelivery { message: Message },
    DataTransferRequest { data: Data },
    StartDataTransfer { data: Data },
    DataReceive { data: Data },
    DataTransferCompleted { data: Data },
}

/// Mathematical model of a lifecycle event.
pub ghost enum NetEventView {
    MessageSend { message: MessageView },
    MessageReceive { message: MessageView },
    MessageDelivery { message: MessageView },
    DataTransferRequest { data: DataView },
    StartDataTransfer { data: DataView },
    DataReceive { data: DataView },
    DataTransferCompleted { data: DataView },
}

impl View for NetEvent {
    type V = NetEventView;

    open spec fn view(&self) -> NetEventView {
        match self {
            NetEvent::MessageSend { message } => NetEventView::MessageSend { message: message@ },
            NetEvent::MessageReceive { message } => NetEventView::MessageReceive {
                message: message@,
            },
            NetEvent::MessageDelivery { message } => NetEventView::MessageDelivery {
                message: message@,
            },
            NetEvent::DataTransferRequest { data } => NetEventView::DataTransferRequest {
                data: data@,
            },
            NetEvent::StartDataTransfer { data } => NetEventView::StartDataTransfer { data: data@ },
            NetEvent::DataReceive { data } => NetEventView::DataReceive { data: data@ },
            NetEvent::DataTransferCompleted { data } => NetEventView::DataTransferCompleted {
                data: data@,
            },
        }
    }
}

} // verus!
