pub mod beneficiaries;
pub mod card_number;
pub mod requests;
pub mod responses;
