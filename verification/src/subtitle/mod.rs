pub mod burner;
pub mod generator;
pub mod roundtrip;
pub mod srt;
pub mod tools;
