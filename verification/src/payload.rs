use vstd::prelude::*;
use vstd::string::StringExecFns;
use crate::frame::{CellValue, CellView, Column, ColumnView, DataType, columns_view};

verus! {

/// A data frame of one row that names a file for a Bacalhau job.
#[derive(Clone, Debug, PartialEq)]
pub struct BacalhauPayload {
    pub filepath: String,
}

/// The columns of a payload naming `filepath`: one string column called
/// "filepath", holding `filepath` as its only value.
pub open spec fn payload_columns(filepath: Seq<char>) -> Seq<ColumnView> {
    seq![ColumnView { name: "filepath"@, data_type: DataType::Str, values: seq![CellView::Str(filepath)] }]
}

impl BacalhauPayload {
    pub fn new(filepath: String) -> (payload: Self)
        ensures
            payload.filepath == filepath,
    {
        Self { filepath }
    }

    /// The payload as a data frame.
    pub fn columns(&self) -> (columns: Vec<Column>)
        ensures
            columns_view(columns@) == payload_columns(self.filepath@),
    {
        let mut values: Vec<CellValue> = Vec::new();
        values.push(CellValue::Str(self.filepath.clone()));
        let column = Column { name: String::from_str("filepath"), data_type: DataType::Str, values };
        let mut columns: Vec<Column> = Vec::new();
        columns.push(column);
        proof {
            assert(column@.values =~= seq![CellView::Str(self.filepath@)]);
            assert(columns_view(columns@) =~= payload_columns(self.filepath@));
        }
        columns
    }
}

/// The mathematical value of a [`BacalhauMessage`]: where it came from, the
/// payload (by its file path) that it has not handed out yet, and the
/// acknowledgement that it has not handed out yet.
pub struct MessageView<A> {
    pub origin: Seq<char>,
    pub payload: Option<Seq<char>>,
    pub ack: Option<A>,
}

/// A message that carries one payload from a section named `origin`, with an
/// optional acknowledgement handle `A` that the receiver resolves once it has
/// handled the message.
pub struct BacalhauMessage<A> {
    origin: String,
    payload: Option<BacalhauPayload>,
    ack: Option<A>,
}

impl<A> View for BacalhauMessage<A> {
    type V = MessageView<A>;

    closed spec fn view(&self) -> MessageView<A> {
        MessageView {
            origin: self.origin@,
            payload: match self.payload {
                Some(p) => Some(p.filepath@),
                None => None,
            },
            ack: self.ack,
        }
    }
}

/// Reading the next chunk of a message: its payload comes out once, after
/// which the message has none left.
pub open spec fn message_next<A>(m: MessageView<A>) -> (MessageView<A>, Option<Seq<char>>) {
    (MessageView { payload: None, ..m }, m.payload)
}

/// Acknowledging a message: its handle comes out once, after which the
/// message has none left.
pub open spec fn message_ack<A>(m: MessageView<A>) -> (MessageView<A>, Option<A>) {
    (MessageView { ack: None, ..m }, m.ack)
}

impl<A> BacalhauMessage<A> {
    pub fn new(origin: String, payload: BacalhauPayload, ack: Option<A>) -> (message: Self)
        ensures
            message@ == (MessageView { origin: origin@, payload: Some(payload.filepath@), ack }),
    {
        Self { origin, payload: Some(payload), ack }
    }

    /// The name of the section that sent the message.
    pub fn origin(&self) -> (origin: &str)
        ensures
            origin@ == self@.origin,
    {
        self.origin.as_str()
    }

    /// The payload that the message has not handed out yet.
    pub fn payload(&self) -> (payload: Option<&BacalhauPayload>)
        ensures
            match payload {
                Some(p) => self@.payload == Some(p.filepath@),
                None => self@.payload is None,
            },
    {
        match &self.payload {
            Some(p) => Some(p),
            None => None,
        }
    }

    /// The next chunk of the message: its payload on the first call, `None`
    /// on every later one.
    pub fn next(&mut self) -> (chunk: Option<BacalhauPayload>)
        ensures
            final(self)@ == message_next(old(self)@).0,
            match chunk {
                Some(p) => message_next(old(self)@).1 == Some(p.filepath@),
                None => message_next(old(self)@).1 is None,
            },
    {
        self.payload.take()
    }

    /// The acknowledgement handle: the one the message was made with on the
    /// first call, `None` (nothing left to acknowledge) on every later one.
    pub fn ack(&mut self) -> (ack: Option<A>)
        ensures
            (final(self)@, ack) == message_ack(old(self)@),
    {
        self.ack.take()
    }
}

/// A message hands out its payload at most once, and reading it changes
/// neither its origin nor its acknowledgement.
pub proof fn lemma_payload_handed_out_once<A>(m: MessageView<A>)
    ensures
        message_next(message_next(m).0).1 is None,
        message_next(m).0.origin == m.origin,
        message_next(m).0.ack == m.ack,
{
}

/// A message hands out its acknowledgement at most once, and acknowledging it
/// changes neither its origin nor its payload.
pub proof fn lemma_ack_handed_out_once<A>(m: MessageView<A>)
    ensures
        message_ack(message_ack(m).0).1 is None,
        message_ack(m).0.origin == m.origin,
        message_ack(m).0.payload == m.payload,
{
}

} // verus!
