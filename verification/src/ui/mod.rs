pub mod controls;
