pub mod xai;
