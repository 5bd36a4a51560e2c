pub mod env_vars;
