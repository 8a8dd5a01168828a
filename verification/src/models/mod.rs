pub mod db_config;
