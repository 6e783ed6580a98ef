//! Line-by-line upsert of JSON records into a document store reachable over HTTP.
//!
//! Each line of input is one JSON record. A record becomes one request, `PUT` to
//! the address of a known document or `POST` to let the store choose one, and the
//! store's answer becomes one line of output, `<identifier>: <outcome>`.
//!
//! The library decides and the program around it acts: it reads the lines, sends
//! the requests and writes the output.
//!
//! * [`args`]: the command line.
//! * [`address`]: the base URL and the address of one record.
//! * [`json`]: JSON values, and what is assumed of `serde_json`.
//! * [`document`]: a parsed JSON document.
//! * [`extract`]: from a record to its request.
//! * [`response`]: from the store's answer to a line of output.
//! * [`driver`]: the run as a state machine.

pub mod address;
pub mod args;
pub mod document;
pub mod driver;
pub mod extract;
pub mod json;
pub mod response;
