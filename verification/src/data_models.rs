use vstd::prelude::*;

verus! {

/// A plain answer to the site.
#[derive(Debug)]
pub struct Message {
    pub reply: String,
}

/// What a visitor of the site sends about themselves.
#[derive(Debug)]
pub struct WriteDataBody {
    pub email: String,
    pub name: String,
    pub about_customer: String,
}

/// Notes that the owner keeps on a customer request.
#[derive(Debug)]
pub struct OwnerNotes {
    pub notes: Vec<String>,
}

/// The history of a customer request.
#[derive(Debug)]
pub struct ObjectLogs {
    pub logs: Vec<String>,
}

/// A customer request as the database stores it.
pub struct WriteToBaseNewCustomer {
    pub id: u16,
    pub request_status: String,
    pub customer_name: String,
    pub customer_email: String,
    pub customer_self_description: String,
    pub owner_notes: OwnerNotes,
    pub object_logs: ObjectLogs,
}

} // verus!
