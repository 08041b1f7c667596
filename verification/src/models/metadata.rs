//! What is recorded about each processed image.

use vstd::prelude::*;
use vstd::string::*;
use crate::decimal::{decimal_digits, format_decimal};

verus! {

/// The record kept for one processed image.
#[derive(Debug)]
pub struct ImageMetadata {
    pub object_key: String,
    pub resized_key: String,
    pub original_size: u64,
    pub final_size: u64,
    pub original_width: u32,
    pub original_height: u32,
    pub final_width: u32,
    pub final_height: u32,
    pub was_resized: bool,
    pub timestamp: String,
}

/// A value of a metadata item, typed as the table stores it: text, a number written
/// in decimal, or a flag.
pub enum ItemValue {
    S(String),
    N(String),
    Bool(bool),
}

/// The abstract content of an `ItemValue`.
pub enum ItemValueView {
    S(Seq<char>),
    N(Seq<char>),
    Bool(bool),
}

impl View for ItemValue {
    type V = ItemValueView;

    open spec fn view(&self) -> ItemValueView {
        match self {
            ItemValue::S(s) => ItemValueView::S(s@),
            ItemValue::N(s) => ItemValueView::N(s@),
            ItemValue::Bool(b) => ItemValueView::Bool(*b),
        }
    }
}

/// The attributes stored for a record, by name, in the order they are written.
pub open spec fn metadata_item(m: ImageMetadata) -> Seq<(Seq<char>, ItemValueView)> {
    seq![
        ("object_key"@, ItemValueView::S(m.object_key@)),
        ("timestamp"@, ItemValueView::S(m.timestamp@)),
        ("resized_key"@, ItemValueView::S(m.resized_key@)),
        ("original_size"@, ItemValueView::N(decimal_digits(m.original_size as nat))),
        ("final_size"@, ItemValueView::N(decimal_digits(m.final_size as nat))),
        ("original_width"@, ItemValueView::N(decimal_digits(m.original_width as nat))),
        ("original_height"@, ItemValueView::N(decimal_digits(m.original_height as nat))),
        ("final_width"@, ItemValueView::N(decimal_digits(m.final_width as nat))),
        ("final_height"@, ItemValueView::N(decimal_digits(m.final_height as nat))),
        ("was_resized"@, ItemValueView::Bool(m.was_resized)),
    ]
}

impl ImageMetadata {
    /// The attributes under which the record is stored, each paired with its name.
    pub fn into_item(self) -> (item: Vec<(String, ItemValue)>)
        ensures
            item@.len() == metadata_item(self).len(),
            forall|i: int| 0 <= i < item@.len() ==> (#[trigger] item@[i]).0@ == metadata_item(self)[i].0
                && item@[i].1@ == metadata_item(self)[i].1,
    {
        let ghost m = self;
        let mut item: Vec<(String, ItemValue)> = Vec::new();
        item.push((String::from_str("object_key"), ItemValue::S(self.object_key)));
        item.push((String::from_str("timestamp"), ItemValue::S(self.timestamp)));
        item.push((String::from_str("resized_key"), ItemValue::S(self.resized_key)));
        item.push((String::from_str("original_size"), ItemValue::N(format_decimal(self.original_size))));
        item.push((String::from_str("final_size"), ItemValue::N(format_decimal(self.final_size))));
        item.push((String::from_str("original_width"), ItemValue::N(format_decimal(self.original_width as u64))));
        item.push((String::from_str("original_height"), ItemValue::N(format_decimal(self.original_height as u64))));
        item.push((String::from_str("final_width"), ItemValue::N(format_decimal(self.final_width as u64))));
        item.push((String::from_str("final_height"), ItemValue::N(format_decimal(self.final_height as u64))));
        item.push((String::from_str("was_resized"), ItemValue::Bool(self.was_resized)));
        item
    }
}

} // verus!
