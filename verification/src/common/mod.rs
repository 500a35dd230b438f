pub mod coordinate2;
