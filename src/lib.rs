//! Decoding of Ruuvi "data format 5" advertisements and the decisions of the
//! scan loop that feeds the decoder.
pub mod address;
pub mod reading;
pub mod scan;
