//! What a catalog has answered, one request after the other, once it has passed a scenario.
pub mod catalog;
pub mod column;
pub mod column_create_or_get_many_unchecked;
pub mod delete_namespace;
pub mod get_time;
pub mod grpc_get_time;
pub mod list_by_partition_not_to_delete;
pub mod list_schemas;
pub mod list_schemas_soft_deleted_rows;
pub mod namespace;
pub mod namespace_soft_deletion;
pub mod namespace_storage;
pub mod parquet_file;
pub mod parquet_file_delete_broken;
pub mod partition;
pub mod partition_create_or_get_idempotent;
pub mod partition_retention;
pub mod partitions_new_file_between;
pub mod setup;
pub mod table;
pub mod table_storage;
pub mod two_repos;
pub mod update_to_compaction_level_1;
