//! The scenarios, one step after the other.
pub mod test_setup;
pub mod test_namespace;
pub mod test_namespace_storage;
pub mod test_namespace_router_version_atomicity;
pub mod test_namespace_soft_deletion;
pub mod test_table;
pub mod test_table_storage;
pub mod assert_table_size;
pub mod test_column;
pub mod validate_partition_snapshot;
pub mod validate_table_snapshot;
pub mod validate_namespace_snapshot;
pub mod validate_root_snapshot;
pub mod list_parquet_files_by_namespace_not_to_delete;
pub mod test_partition;
pub mod keep_for_ever;
pub mod test_parquet_file;
pub mod test_parquet_file_delete_broken;
pub mod test_partitions_new_file_between;
pub mod test_list_by_partiton_not_to_delete;
pub mod test_update_to_compaction_level_1;
pub mod test_delete_namespace;
pub mod test_partition_retention;
pub mod populate_namespace;
pub mod test_list_schemas;
pub mod test_list_schemas_soft_deleted_rows;
pub mod test_two_repos;
pub mod test_partition_create_or_get_idempotent;
pub mod test_column_create_or_get_many_unchecked;
pub mod test_column_create_or_get_many_unchecked_sub;
pub mod test_get_time;
pub mod test_grpc_get_time_with_backed_catalog;
pub mod test_catalog;
