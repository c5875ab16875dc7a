pub mod toggle;
