//! The decision and formatting logic of the Renegade X launcher back end:
//! the ICMP echo request used to measure server latency, the download
//! progress report, the update checks, the game and installer launch
//! arguments and messages, and the preparation of HTTP requests.
pub mod decimal;
pub mod ping;
pub mod progress;
pub mod update;
pub mod game;
pub mod request;
