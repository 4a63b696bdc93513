pub mod ota;
