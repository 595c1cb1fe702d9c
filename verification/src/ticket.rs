use vstd::prelude::*;

verus! {

/// The mathematical content of a ticket: its title, body and point estimate.
#[verifier::ext_equal]
pub ghost struct TicketView {
    pub title: Seq<char>,
    pub body: Seq<char>,
    pub points: u8,
}

/// A unit of work stored on a board: a title, a free-text body and a point
/// estimate. Tickets are immutable once created.
#[derive(Debug, Clone)]
pub struct Ticket {
    pub title: String,
    pub body: String,
    pub points: u8,
}

impl View for Ticket {
    type V = TicketView;

    open spec fn view(&self) -> TicketView {
        TicketView { title: self.title@, body: self.body@, points: self.points }
    }
}

impl Ticket {
    /// Creates a ticket with the given title, an empty body and zero points.
    pub fn new(title: String) -> (t: Ticket)
        ensures
            t@.title == title@,
            t@.body == Seq::<char>::empty(),
            t@.points == 0,
    {
        Ticket { title, body: String::new(), points: 0 }
    }
}

} // verus!
