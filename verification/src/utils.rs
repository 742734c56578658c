pub mod token_value;
