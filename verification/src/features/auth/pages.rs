pub mod password_reset;
