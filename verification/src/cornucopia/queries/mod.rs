pub mod bank_queries;
