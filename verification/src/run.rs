//! Running a scenario, one request and one reply at a time.
use crate::reply::Reply;
use crate::request::{Request, RequestView, Scenario, ScenarioView};
use crate::scenarios::{
    assert_table_size, keep_for_ever, list_parquet_files_by_namespace_not_to_delete,
    populate_namespace, test_catalog, test_column, test_column_create_or_get_many_unchecked,
    test_column_create_or_get_many_unchecked_sub, test_delete_namespace, test_get_time,
    test_grpc_get_time_with_backed_catalog, test_list_by_partiton_not_to_delete, test_list_schemas,
    test_list_schemas_soft_deleted_rows, test_namespace, test_namespace_router_version_atomicity,
    test_namespace_soft_deletion, test_namespace_storage, test_parquet_file,
    test_parquet_file_delete_broken, test_partition, test_partition_create_or_get_idempotent,
    test_partition_retention, test_partitions_new_file_between, test_setup, test_table,
    test_table_storage, test_two_repos, test_update_to_compaction_level_1,
    validate_namespace_snapshot, validate_partition_snapshot, validate_root_snapshot,
    validate_table_snapshot,
};
use vstd::prelude::*;

verus! {

/// A scenario can start: what it was started with is as it has to be.
pub open spec fn opens(s: ScenarioView) -> bool {
    match s {
        ScenarioView::ValidateTableSnapshot { table_snapshot } => table_snapshot.table is Some,
        ScenarioView::ValidateNamespaceSnapshot { namespace_snapshot } => {
            namespace_snapshot.namespace is Some
        },
        ScenarioView::ManyColumns { calls, want } => calls.len() > 0,
        _ => true,
    }
}

/// What a scenario asks for when the replies so far are `h`.
pub open spec fn request(s: ScenarioView, h: Seq<Reply>) -> RequestView {
    match s {
        ScenarioView::Setup => test_setup::request(h),
        ScenarioView::Namespace => test_namespace::request(h),
        ScenarioView::NamespaceStorage => test_namespace_storage::request(h),
        ScenarioView::NamespaceRouterVersionAtomicity => {
            test_namespace_router_version_atomicity::request(h)
        },
        ScenarioView::NamespaceSoftDeletion => test_namespace_soft_deletion::request(h),
        ScenarioView::Table => test_table::request(h),
        ScenarioView::TableStorage => test_table_storage::request(h),
        ScenarioView::TableSize { namespace_id, first, first_size, second } => {
            assert_table_size::request(h, namespace_id, first, first_size, second)
        },
        ScenarioView::Column => test_column::request(h),
        ScenarioView::ValidatePartitionSnapshot { partition_snapshot } => {
            validate_partition_snapshot::request(h, partition_snapshot)
        },
        ScenarioView::ValidateTableSnapshot { table_snapshot } => validate_table_snapshot::request(
            h,
            table_snapshot,
        ),
        ScenarioView::ValidateNamespaceSnapshot { namespace_snapshot } => {
            validate_namespace_snapshot::request(h, namespace_snapshot)
        },
        ScenarioView::ValidateRootSnapshot { root_snapshot } => validate_root_snapshot::request(
            h,
            root_snapshot,
        ),
        ScenarioView::ListParquetFiles { namespace_id } => {
            list_parquet_files_by_namespace_not_to_delete::request(h, namespace_id)
        },
        ScenarioView::Partition => test_partition::request(h),
        ScenarioView::KeepForEver { namespaces } => keep_for_ever::request(h, namespaces),
        ScenarioView::ParquetFile { max_l0_files } => test_parquet_file::request(h, max_l0_files),
        ScenarioView::ParquetFileDeleteBroken => test_parquet_file_delete_broken::request(h),
        ScenarioView::PartitionsNewFileBetween => test_partitions_new_file_between::request(h),
        ScenarioView::ListByPartitionNotToDelete => test_list_by_partiton_not_to_delete::request(h),
        ScenarioView::UpdateToCompactionLevel1 => test_update_to_compaction_level_1::request(h),
        ScenarioView::DeleteNamespace => test_delete_namespace::request(h),
        ScenarioView::PartitionRetention => test_partition_retention::request(h),
        ScenarioView::PopulateNamespace { name, lines } => populate_namespace::request(
            h,
            name,
            lines,
        ),
        ScenarioView::ListSchemas => test_list_schemas::request(h),
        ScenarioView::ListSchemasSoftDeletedRows => test_list_schemas_soft_deleted_rows::request(h),
        ScenarioView::TwoRepos => test_two_repos::request(h),
        ScenarioView::PartitionCreateOrGetIdempotent => {
            test_partition_create_or_get_idempotent::request(h)
        },
        ScenarioView::ColumnCreateOrGetManyUnchecked => {
            test_column_create_or_get_many_unchecked::request(h)
        },
        ScenarioView::ManyColumns { calls, want } => {
            test_column_create_or_get_many_unchecked_sub::request(h, calls, want)
        },
        ScenarioView::GetTime => test_get_time::request(h),
        ScenarioView::GrpcGetTime => test_grpc_get_time_with_backed_catalog::request(h),
        ScenarioView::Catalog { max_l0_files } => test_catalog::request(h, max_l0_files),
    }
}

/// The last of the replies `h` is as the scenario expects it, where the ones before it were.
pub open spec fn accepts(s: ScenarioView, h: Seq<Reply>) -> bool {
    match s {
        ScenarioView::Setup => test_setup::accepts(h),
        ScenarioView::Namespace => test_namespace::accepts(h),
        ScenarioView::NamespaceStorage => test_namespace_storage::accepts(h),
        ScenarioView::NamespaceRouterVersionAtomicity => {
            test_namespace_router_version_atomicity::accepts(h)
        },
        ScenarioView::NamespaceSoftDeletion => test_namespace_soft_deletion::accepts(h),
        ScenarioView::Table => test_table::accepts(h),
        ScenarioView::TableStorage => test_table_storage::accepts(h),
        ScenarioView::TableSize { namespace_id, first, first_size, second } => {
            assert_table_size::accepts(h, namespace_id, first, first_size, second)
        },
        ScenarioView::Column => test_column::accepts(h),
        ScenarioView::ValidatePartitionSnapshot { partition_snapshot } => {
            validate_partition_snapshot::accepts(h, partition_snapshot)
        },
        ScenarioView::ValidateTableSnapshot { table_snapshot } => validate_table_snapshot::accepts(
            h,
            table_snapshot,
        ),
        ScenarioView::ValidateNamespaceSnapshot { namespace_snapshot } => {
            validate_namespace_snapshot::accepts(h, namespace_snapshot)
        },
        ScenarioView::ValidateRootSnapshot { root_snapshot } => validate_root_snapshot::accepts(
            h,
            root_snapshot,
        ),
        ScenarioView::ListParquetFiles { namespace_id } => {
            list_parquet_files_by_namespace_not_to_delete::accepts(h, namespace_id)
        },
        ScenarioView::Partition => test_partition::accepts(h),
        ScenarioView::KeepForEver { namespaces } => keep_for_ever::accepts(h, namespaces),
        ScenarioView::ParquetFile { max_l0_files } => test_parquet_file::accepts(h, max_l0_files),
        ScenarioView::ParquetFileDeleteBroken => test_parquet_file_delete_broken::accepts(h),
        ScenarioView::PartitionsNewFileBetween => test_partitions_new_file_between::accepts(h),
        ScenarioView::ListByPartitionNotToDelete => test_list_by_partiton_not_to_delete::accepts(h),
        ScenarioView::UpdateToCompactionLevel1 => test_update_to_compaction_level_1::accepts(h),
        ScenarioView::DeleteNamespace => test_delete_namespace::accepts(h),
        ScenarioView::PartitionRetention => test_partition_retention::accepts(h),
        ScenarioView::PopulateNamespace { name, lines } => populate_namespace::accepts(
            h,
            name,
            lines,
        ),
        ScenarioView::ListSchemas => test_list_schemas::accepts(h),
        ScenarioView::ListSchemasSoftDeletedRows => test_list_schemas_soft_deleted_rows::accepts(h),
        ScenarioView::TwoRepos => test_two_repos::accepts(h),
        ScenarioView::PartitionCreateOrGetIdempotent => {
            test_partition_create_or_get_idempotent::accepts(h)
        },
        ScenarioView::ColumnCreateOrGetManyUnchecked => {
            test_column_create_or_get_many_unchecked::accepts(h)
        },
        ScenarioView::ManyColumns { calls, want } => {
            test_column_create_or_get_many_unchecked_sub::accepts(h, calls, want)
        },
        ScenarioView::GetTime => test_get_time::accepts(h),
        ScenarioView::GrpcGetTime => test_grpc_get_time_with_backed_catalog::accepts(h),
        ScenarioView::Catalog { max_l0_files } => test_catalog::accepts(h, max_l0_files),
    }
}

/// With the replies `h` the scenario has asked for everything.
pub open spec fn finished(s: ScenarioView, h: Seq<Reply>) -> bool {
    match s {
        ScenarioView::Setup => test_setup::finished(h),
        ScenarioView::Namespace => test_namespace::finished(h),
        ScenarioView::NamespaceStorage => test_namespace_storage::finished(h),
        ScenarioView::NamespaceRouterVersionAtomicity => {
            test_namespace_router_version_atomicity::finished(h)
        },
        ScenarioView::NamespaceSoftDeletion => test_namespace_soft_deletion::finished(h),
        ScenarioView::Table => test_table::finished(h),
        ScenarioView::TableStorage => test_table_storage::finished(h),
        ScenarioView::TableSize { namespace_id, first, first_size, second } => {
            assert_table_size::finished(h, namespace_id, first, first_size, second)
        },
        ScenarioView::Column => test_column::finished(h),
        ScenarioView::ValidatePartitionSnapshot { partition_snapshot } => {
            validate_partition_snapshot::finished(h, partition_snapshot)
        },
        ScenarioView::ValidateTableSnapshot { table_snapshot } => validate_table_snapshot::finished(
            h,
            table_snapshot,
        ),
        ScenarioView::ValidateNamespaceSnapshot { namespace_snapshot } => {
            validate_namespace_snapshot::finished(h, namespace_snapshot)
        },
        ScenarioView::ValidateRootSnapshot { root_snapshot } => validate_root_snapshot::finished(
            h,
            root_snapshot,
        ),
        ScenarioView::ListParquetFiles { namespace_id } => {
            list_parquet_files_by_namespace_not_to_delete::finished(h, namespace_id)
        },
        ScenarioView::Partition => test_partition::finished(h),
        ScenarioView::KeepForEver { namespaces } => keep_for_ever::finished(h, namespaces),
        ScenarioView::ParquetFile { max_l0_files } => test_parquet_file::finished(h, max_l0_files),
        ScenarioView::ParquetFileDeleteBroken => test_parquet_file_delete_broken::finished(h),
        ScenarioView::PartitionsNewFileBetween => test_partitions_new_file_between::finished(h),
        ScenarioView::ListByPartitionNotToDelete => test_list_by_partiton_not_to_delete::finished(
            h,
        ),
        ScenarioView::UpdateToCompactionLevel1 => test_update_to_compaction_level_1::finished(h),
        ScenarioView::DeleteNamespace => test_delete_namespace::finished(h),
        ScenarioView::PartitionRetention => test_partition_retention::finished(h),
        ScenarioView::PopulateNamespace { name, lines } => populate_namespace::finished(
            h,
            name,
            lines,
        ),
        ScenarioView::ListSchemas => test_list_schemas::finished(h),
        ScenarioView::ListSchemasSoftDeletedRows => test_list_schemas_soft_deleted_rows::finished(
            h,
        ),
        ScenarioView::TwoRepos => test_two_repos::finished(h),
        ScenarioView::PartitionCreateOrGetIdempotent => {
            test_partition_create_or_get_idempotent::finished(h)
        },
        ScenarioView::ColumnCreateOrGetManyUnchecked => {
            test_column_create_or_get_many_unchecked::finished(h)
        },
        ScenarioView::ManyColumns { calls, want } => {
            test_column_create_or_get_many_unchecked_sub::finished(h, calls, want)
        },
        ScenarioView::GetTime => test_get_time::finished(h),
        ScenarioView::GrpcGetTime => test_grpc_get_time_with_backed_catalog::finished(h),
        ScenarioView::Catalog { max_l0_files } => test_catalog::finished(h, max_l0_files),
    }
}

/// Each of the first `m` replies is as the scenario expects it.
pub open spec fn accepted(s: ScenarioView, h: Seq<Reply>, m: int) -> bool {
    forall|n: int| 0 < n <= m ==> #[trigger] accepts(s, h.take(n))
}

/// With no fewer replies than `h` the scenario has asked for everything.
pub open spec fn finished_no_sooner(s: ScenarioView, h: Seq<Reply>) -> bool {
    forall|n: int| 0 <= n < h.len() ==> !(#[trigger] finished(s, h.take(n)))
}

/// The replies `h` are all that the scenario asks for and no more, and each is as the scenario
/// expects it.
pub open spec fn passes(s: ScenarioView, h: Seq<Reply>) -> bool {
    opens(s) && accepted(s, h, h.len() as int) && finished(s, h) && finished_no_sooner(s, h)
}

/// With the replies `h` it is certain that the scenario fails.
pub open spec fn fails(s: ScenarioView, h: Seq<Reply>) -> bool {
    !opens(s) || !accepted(s, h, h.len() as int)
}

/// What a scenario that passed hands to the scenario that it is a part of: the files that it found,
/// the namespace that it filled, or nothing but that it passed.
pub open spec fn is_outcome(s: ScenarioView, h: Seq<Reply>, outcome: Reply) -> bool {
    match s {
        ScenarioView::ListParquetFiles { .. } => outcome == h.last(),
        ScenarioView::PopulateNamespace { .. } => outcome is Populated && outcome->Populated_0@
            == populate_namespace::outcome(h),
        _ => outcome == Reply::Passed,
    }
}

/// What comes next in a run.
#[derive(Debug)]
pub enum Action<'a> {
    /// the request has to be carried out and its reply delivered
    Ask(Request<'a>),
    /// the scenario has passed
    Pass,
    /// the scenario has failed
    Fail,
}

/// A scenario and the replies that it has heard so far.
#[derive(Debug)]
pub struct Run<'a> {
    scenario: Scenario<'a>,
    replies: Vec<Reply>,
    failed: bool,
}

impl<'a> Run<'a> {
    /// The scenario that is run.
    pub closed spec fn scenario(self) -> ScenarioView {
        self.scenario@
    }

    /// The replies so far.
    pub closed spec fn history(self) -> Seq<Reply> {
        self.replies@
    }

    /// The scenario has failed.
    pub open spec fn has_failed(self) -> bool {
        fails(self.scenario(), self.history())
    }

    /// The scenario has passed.
    pub open spec fn has_passed(self) -> bool {
        passes(self.scenario(), self.history())
    }

    /// The scenario waits for a reply.
    pub open spec fn is_waiting(self) -> bool {
        !self.has_failed() && !self.has_passed()
    }

    /// The run was started by [`Run::new`] and got all its replies by [`Run::deliver`].
    pub closed spec fn wf(self) -> bool {
        &&& self.failed == fails(self.scenario@, self.replies@)
        &&& finished_no_sooner(self.scenario@, self.replies@)
    }

    /// A run hears no reply that its scenario does not ask for: with fewer replies than it has
    /// heard
    /// the scenario had not asked for everything. It hears no more replies than can be counted.
    pub proof fn law_a_run_stops_at_the_end(&self)
        requires
            self.wf(),
        ensures
            finished_no_sooner(self.scenario(), self.history()),
            self.history().len() <= usize::MAX,
    {
        assert(self.replies.len() <= usize::MAX);
    }

    /// A run of `scenario` that has heard nothing yet.
    pub fn new(scenario: Scenario<'a>) -> (r: Self)
        ensures
            r.wf(),
            r.scenario() == scenario@,
            r.history() == Seq::<Reply>::empty(),
    {
        let failed: bool = match &scenario {
            Scenario::ValidateTableSnapshot { table_snapshot } => !table_snapshot.table.is_some(),
            Scenario::ValidateNamespaceSnapshot { namespace_snapshot } => {
                !namespace_snapshot.namespace.is_some()
            },
            Scenario::ManyColumns { calls, want } => calls.is_empty(),
            _ => false,
        };
        Run { scenario, replies: Vec::new(), failed }
    }

    /// Whether the scenario has asked for everything.
    fn is_finished(&self) -> (b: bool)
        requires
            self.wf(),
            !self.has_failed(),
        ensures
            b == finished(self.scenario(), self.history()),
    {
        match &self.scenario {
            Scenario::Setup => test_setup::is_finished(&self.replies),
            Scenario::Namespace => test_namespace::is_finished(&self.replies),
            Scenario::NamespaceStorage => test_namespace_storage::is_finished(&self.replies),
            Scenario::NamespaceRouterVersionAtomicity => {
                test_namespace_router_version_atomicity::is_finished(&self.replies)
            },
            Scenario::NamespaceSoftDeletion => test_namespace_soft_deletion::is_finished(
                &self.replies,
            ),
            Scenario::Table => test_table::is_finished(&self.replies),
            Scenario::TableStorage => test_table_storage::is_finished(&self.replies),
            Scenario::TableSize { namespace_id, first, first_size, second } => {
                assert_table_size::is_finished(
                    &self.replies,
                    *namespace_id,
                    *first,
                    *first_size,
                    *second,
                )
            },
            Scenario::Column => test_column::is_finished(&self.replies),
            Scenario::ValidatePartitionSnapshot { partition_snapshot } => {
                validate_partition_snapshot::is_finished(&self.replies, partition_snapshot)
            },
            Scenario::ValidateTableSnapshot { table_snapshot } => {
                validate_table_snapshot::is_finished(&self.replies, table_snapshot)
            },
            Scenario::ValidateNamespaceSnapshot { namespace_snapshot } => {
                validate_namespace_snapshot::is_finished(&self.replies, namespace_snapshot)
            },
            Scenario::ValidateRootSnapshot { root_snapshot } => validate_root_snapshot::is_finished(
                &self.replies,
                root_snapshot,
            ),
            Scenario::ListParquetFiles { namespace_id } => {
                list_parquet_files_by_namespace_not_to_delete::is_finished(
                    &self.replies,
                    *namespace_id,
                )
            },
            Scenario::Partition => test_partition::is_finished(&self.replies),
            Scenario::KeepForEver { namespaces } => keep_for_ever::is_finished(
                &self.replies,
                namespaces,
            ),
            Scenario::ParquetFile { max_l0_files } => test_parquet_file::is_finished(
                &self.replies,
                *max_l0_files,
            ),
            Scenario::ParquetFileDeleteBroken => test_parquet_file_delete_broken::is_finished(
                &self.replies,
            ),
            Scenario::PartitionsNewFileBetween => test_partitions_new_file_between::is_finished(
                &self.replies,
            ),
            Scenario::ListByPartitionNotToDelete => {
                test_list_by_partiton_not_to_delete::is_finished(&self.replies)
            },
            Scenario::UpdateToCompactionLevel1 => test_update_to_compaction_level_1::is_finished(
                &self.replies,
            ),
            Scenario::DeleteNamespace => test_delete_namespace::is_finished(&self.replies),
            Scenario::PartitionRetention => test_partition_retention::is_finished(&self.replies),
            Scenario::PopulateNamespace { name, lines } => populate_namespace::is_finished(
                &self.replies,
                name,
                lines,
            ),
            Scenario::ListSchemas => test_list_schemas::is_finished(&self.replies),
            Scenario::ListSchemasSoftDeletedRows => {
                test_list_schemas_soft_deleted_rows::is_finished(&self.replies)
            },
            Scenario::TwoRepos => test_two_repos::is_finished(&self.replies),
            Scenario::PartitionCreateOrGetIdempotent => {
                test_partition_create_or_get_idempotent::is_finished(&self.replies)
            },
            Scenario::ColumnCreateOrGetManyUnchecked => {
                test_column_create_or_get_many_unchecked::is_finished(&self.replies)
            },
            Scenario::ManyColumns { calls, want } => {
                test_column_create_or_get_many_unchecked_sub::is_finished(
                    &self.replies,
                    calls,
                    *want,
                )
            },
            Scenario::GetTime => test_get_time::is_finished(&self.replies),
            Scenario::GrpcGetTime => test_grpc_get_time_with_backed_catalog::is_finished(
                &self.replies,
            ),
            Scenario::Catalog { max_l0_files } => test_catalog::is_finished(
                &self.replies,
                *max_l0_files,
            ),
        }
    }

    /// What comes next: the request that the scenario makes after the replies so far, or the
    /// verdict.
    pub fn action(&self) -> (r: Action<'_>)
        requires
            self.wf(),
        ensures
            r is Fail <==> self.has_failed(),
            r is Pass <==> self.has_passed(),
            r matches Action::Ask(q) ==> q@ == request(self.scenario(), self.history()),
    {
        if self.failed {
            return Action::Fail;
        }
        if self.is_finished() {
            return Action::Pass;
        }
        let asked: Request<'_> = match &self.scenario {
            Scenario::Setup => test_setup::next_request(&self.replies),
            Scenario::Namespace => test_namespace::next_request(&self.replies),
            Scenario::NamespaceStorage => test_namespace_storage::next_request(&self.replies),
            Scenario::NamespaceRouterVersionAtomicity => {
                test_namespace_router_version_atomicity::next_request(&self.replies)
            },
            Scenario::NamespaceSoftDeletion => test_namespace_soft_deletion::next_request(
                &self.replies,
            ),
            Scenario::Table => test_table::next_request(&self.replies),
            Scenario::TableStorage => test_table_storage::next_request(&self.replies),
            Scenario::TableSize { namespace_id, first, first_size, second } => {
                assert_table_size::next_request(
                    &self.replies,
                    *namespace_id,
                    *first,
                    *first_size,
                    *second,
                )
            },
            Scenario::Column => test_column::next_request(&self.replies),
            Scenario::ValidatePartitionSnapshot { partition_snapshot } => {
                validate_partition_snapshot::next_request(&self.replies, partition_snapshot)
            },
            Scenario::ValidateTableSnapshot { table_snapshot } => {
                validate_table_snapshot::next_request(&self.replies, table_snapshot)
            },
            Scenario::ValidateNamespaceSnapshot { namespace_snapshot } => {
                validate_namespace_snapshot::next_request(&self.replies, namespace_snapshot)
            },
            Scenario::ValidateRootSnapshot { root_snapshot } => {
                validate_root_snapshot::next_request(&self.replies, root_snapshot)
            },
            Scenario::ListParquetFiles { namespace_id } => {
                list_parquet_files_by_namespace_not_to_delete::next_request(
                    &self.replies,
                    *namespace_id,
                )
            },
            Scenario::Partition => test_partition::next_request(&self.replies),
            Scenario::KeepForEver { namespaces } => keep_for_ever::next_request(
                &self.replies,
                namespaces,
            ),
            Scenario::ParquetFile { max_l0_files } => test_parquet_file::next_request(
                &self.replies,
                *max_l0_files,
            ),
            Scenario::ParquetFileDeleteBroken => test_parquet_file_delete_broken::next_request(
                &self.replies,
            ),
            Scenario::PartitionsNewFileBetween => test_partitions_new_file_between::next_request(
                &self.replies,
            ),
            Scenario::ListByPartitionNotToDelete => {
                test_list_by_partiton_not_to_delete::next_request(&self.replies)
            },
            Scenario::UpdateToCompactionLevel1 => test_update_to_compaction_level_1::next_request(
                &self.replies,
            ),
            Scenario::DeleteNamespace => test_delete_namespace::next_request(&self.replies),
            Scenario::PartitionRetention => test_partition_retention::next_request(&self.replies),
            Scenario::PopulateNamespace { name, lines } => populate_namespace::next_request(
                &self.replies,
                name,
                lines,
            ),
            Scenario::ListSchemas => test_list_schemas::next_request(&self.replies),
            Scenario::ListSchemasSoftDeletedRows => {
                test_list_schemas_soft_deleted_rows::next_request(&self.replies)
            },
            Scenario::TwoRepos => test_two_repos::next_request(&self.replies),
            Scenario::PartitionCreateOrGetIdempotent => {
                test_partition_create_or_get_idempotent::next_request(&self.replies)
            },
            Scenario::ColumnCreateOrGetManyUnchecked => {
                test_column_create_or_get_many_unchecked::next_request(&self.replies)
            },
            Scenario::ManyColumns { calls, want } => {
                test_column_create_or_get_many_unchecked_sub::next_request(
                    &self.replies,
                    calls,
                    *want,
                )
            },
            Scenario::GetTime => test_get_time::next_request(&self.replies),
            Scenario::GrpcGetTime => test_grpc_get_time_with_backed_catalog::next_request(
                &self.replies,
            ),
            Scenario::Catalog { max_l0_files } => test_catalog::next_request(
                &self.replies,
                *max_l0_files,
            ),
        };
        Action::Ask(asked)
    }

    /// Whether the last reply is as the scenario expects it.
    fn accepts_last(&self) -> (b: bool)
        requires
            self.replies.len() > 0,
            opens(self.scenario@),
            accepted(self.scenario@, self.replies@, self.replies@.len() - 1),
            !finished(self.scenario@, self.replies@.drop_last()),
        ensures
            b == accepts(self.scenario@, self.replies@),
    {
        match &self.scenario {
            Scenario::Setup => test_setup::accepts_last(&self.replies),
            Scenario::Namespace => test_namespace::accepts_last(&self.replies),
            Scenario::NamespaceStorage => test_namespace_storage::accepts_last(&self.replies),
            Scenario::NamespaceRouterVersionAtomicity => {
                test_namespace_router_version_atomicity::accepts_last(&self.replies)
            },
            Scenario::NamespaceSoftDeletion => test_namespace_soft_deletion::accepts_last(
                &self.replies,
            ),
            Scenario::Table => test_table::accepts_last(&self.replies),
            Scenario::TableStorage => test_table_storage::accepts_last(&self.replies),
            Scenario::TableSize { namespace_id, first, first_size, second } => {
                assert_table_size::accepts_last(
                    &self.replies,
                    *namespace_id,
                    *first,
                    *first_size,
                    *second,
                )
            },
            Scenario::Column => test_column::accepts_last(&self.replies),
            Scenario::ValidatePartitionSnapshot { partition_snapshot } => {
                validate_partition_snapshot::accepts_last(&self.replies, partition_snapshot)
            },
            Scenario::ValidateTableSnapshot { table_snapshot } => {
                validate_table_snapshot::accepts_last(&self.replies, table_snapshot)
            },
            Scenario::ValidateNamespaceSnapshot { namespace_snapshot } => {
                validate_namespace_snapshot::accepts_last(&self.replies, namespace_snapshot)
            },
            Scenario::ValidateRootSnapshot { root_snapshot } => {
                validate_root_snapshot::accepts_last(&self.replies, root_snapshot)
            },
            Scenario::ListParquetFiles { namespace_id } => {
                list_parquet_files_by_namespace_not_to_delete::accepts_last(
                    &self.replies,
                    *namespace_id,
                )
            },
            Scenario::Partition => test_partition::accepts_last(&self.replies),
            Scenario::KeepForEver { namespaces } => keep_for_ever::accepts_last(
                &self.replies,
                namespaces,
            ),
            Scenario::ParquetFile { max_l0_files } => test_parquet_file::accepts_last(
                &self.replies,
                *max_l0_files,
            ),
            Scenario::ParquetFileDeleteBroken => test_parquet_file_delete_broken::accepts_last(
                &self.replies,
            ),
            Scenario::PartitionsNewFileBetween => test_partitions_new_file_between::accepts_last(
                &self.replies,
            ),
            Scenario::ListByPartitionNotToDelete => {
                test_list_by_partiton_not_to_delete::accepts_last(&self.replies)
            },
            Scenario::UpdateToCompactionLevel1 => test_update_to_compaction_level_1::accepts_last(
                &self.replies,
            ),
            Scenario::DeleteNamespace => test_delete_namespace::accepts_last(&self.replies),
            Scenario::PartitionRetention => test_partition_retention::accepts_last(&self.replies),
            Scenario::PopulateNamespace { name, lines } => populate_namespace::accepts_last(
                &self.replies,
                name,
                lines,
            ),
            Scenario::ListSchemas => test_list_schemas::accepts_last(&self.replies),
            Scenario::ListSchemasSoftDeletedRows => {
                test_list_schemas_soft_deleted_rows::accepts_last(&self.replies)
            },
            Scenario::TwoRepos => test_two_repos::accepts_last(&self.replies),
            Scenario::PartitionCreateOrGetIdempotent => {
                test_partition_create_or_get_idempotent::accepts_last(&self.replies)
            },
            Scenario::ColumnCreateOrGetManyUnchecked => {
                test_column_create_or_get_many_unchecked::accepts_last(&self.replies)
            },
            Scenario::ManyColumns { calls, want } => {
                test_column_create_or_get_many_unchecked_sub::accepts_last(
                    &self.replies,
                    calls,
                    *want,
                )
            },
            Scenario::GetTime => test_get_time::accepts_last(&self.replies),
            Scenario::GrpcGetTime => test_grpc_get_time_with_backed_catalog::accepts_last(
                &self.replies,
            ),
            Scenario::Catalog { max_l0_files } => test_catalog::accepts_last(
                &self.replies,
                *max_l0_files,
            ),
        }
    }

    /// Delivers the reply to the request that the scenario made. Once the scenario has passed or
    /// failed it hears no more replies.
    pub fn deliver(&mut self, reply: Reply)
        requires
            old(self).wf(),
        ensures
            final(self).wf(),
            final(self).scenario() == old(self).scenario(),
            final(self).history() == if old(self).is_waiting() {
                old(self).history().push(reply)
            } else {
                old(self).history()
            },
    {
        if self.failed || self.is_finished() {
            return;
        }
        let ghost before: Seq<Reply> = self.replies@;
        self.replies.push(reply);
        proof {
            let now = self.replies@;
            assert(now.drop_last() =~= before);
            assert forall|n: int| 0 < n <= before.len() implies #[trigger] accepts(
                self.scenario@,
                now.take(n),
            ) by {
                assert(now.take(n) =~= before.take(n));
                assert(accepts(self.scenario@, before.take(n)));
            }
            assert(now.take(now.len() as int) =~= now);
            assert forall|n: int| 0 <= n < now.len() implies !(#[trigger] finished(
                self.scenario@,
                now.take(n),
            )) by {
                assert(now.take(n) =~= before.take(n));
                assert(before.take(before.len() as int) =~= before);
            }
        }
        self.failed = !self.accepts_last();
    }

    /// How many replies the scenario has heard.
    pub fn heard(&self) -> (count: usize)
        ensures
            count == self.history().len(),
    {
        self.replies.len()
    }

    /// Ends the run: what the scenario hands to the one that it is a part of, if it has passed.
    pub fn conclude(self) -> (r: Option<Reply>)
        requires
            self.wf(),
        ensures
            r is Some <==> self.has_passed(),
            r matches Some(outcome) ==> is_outcome(self.scenario(), self.history(), outcome),
    {
        if self.failed || !self.is_finished() {
            return None;
        }
        match self.scenario {
            Scenario::ListParquetFiles { .. } => {
                let mut replies: Vec<Reply> = self.replies;
                replies.pop()
            },
            Scenario::PopulateNamespace { name, lines } => {
                proof {
                    let h = self.replies@;
                    let m = h.len() - 1;
                    assert(!finished(self.scenario@, h.take(m)));
                    if m > 0 {
                        assert(h.take(m)[0] == h[0]);
                    }
                }
                Some(Reply::Populated(populate_namespace::take_outcome(self.replies, name, lines)))
            },
            _ => Some(Reply::Passed),
        }
    }
}

} // verus!
