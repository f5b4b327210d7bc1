pub mod sample;
