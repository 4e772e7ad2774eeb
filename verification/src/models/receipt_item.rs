//! Line items of a receipt attached to an operation.

use vstd::prelude::*;
use crate::text::opt_view;

verus! {

/// One receipt line. The quantity is a floating-point number in the user
/// interface and the database; here it is carried as its IEEE-754 bit pattern
/// (`f64::to_bits`), which the library never inspects.
#[derive(Debug, Clone)]
pub struct ReceiptItem {
    pub id: String,
    pub transaction_id: String,
    pub name: String,
    pub price_minor: i64,
    pub qty_bits: u64,
    pub unit: Option<String>,
    pub fns_raw: Option<String>,
}

pub struct ReceiptItemV {
    pub id: Seq<char>,
    pub transaction_id: Seq<char>,
    pub name: Seq<char>,
    pub price_minor: i64,
    pub qty_bits: u64,
    pub unit: Option<Seq<char>>,
    pub fns_raw: Option<Seq<char>>,
}

impl View for ReceiptItem {
    type V = ReceiptItemV;

    open spec fn view(&self) -> ReceiptItemV {
        ReceiptItemV {
            id: self.id@,
            transaction_id: self.transaction_id@,
            name: self.name@,
            price_minor: self.price_minor,
            qty_bits: self.qty_bits,
            unit: opt_view(self.unit),
            fns_raw: opt_view(self.fns_raw),
        }
    }
}

} // verus!
