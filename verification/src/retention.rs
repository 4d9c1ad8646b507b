//! Which partitions are removed once their data is too old.
use vstd::prelude::*;

verus! {

/// When a partition was created.
#[derive(Debug, Clone, Copy, PartialEq, Eq, Structural)]
pub enum Created {
    /// just now
    Now,
    /// more than a day ago
    OverOneDayAgo,
    /// at a time that was not recorded
    Unknown,
}

/// A partition, as far as its removal depends on it.
#[derive(Debug, Clone, Copy, PartialEq, Eq, Structural)]
pub struct Candidate {
    /// when it was created
    pub created: Created,
    /// how many days ago the date is that its key shows, if it shows one
    pub days_ago: Option<i64>,
    /// whether it has files
    pub has_parquet_files: bool,
    /// whether it has to be retained
    pub retain: bool,
}

/// For how many days data is kept.
pub const RETENTION_DAYS: i64 = 7;

/// How many candidates have a key that shows a date. They come first.
pub const DATED: usize = 12;

/// How many candidates there are.
pub const CANDIDATES: usize = 18;

/// A candidate whose key shows a date.
pub open spec fn dated(
    created: Created,
    days_ago: i64,
    has_parquet_files: bool,
    retain: bool,
) -> Candidate {
    Candidate { created, days_ago: Some(days_ago), has_parquet_files, retain }
}

/// A candidate whose key shows no date.
pub open spec fn undated(created: Created, has_parquet_files: bool) -> Candidate {
    Candidate { created, days_ago: None, has_parquet_files, retain: true }
}

/// The `i`-th candidate.
pub open spec fn candidate(i: int) -> Candidate {
    if i == 0 {
        // within the retention period, without files
        dated(Created::Now, 2, false, true)
    } else if i == 1 {
        dated(Created::OverOneDayAgo, 3, false, true)
    } else if i == 2 {
        dated(Created::Unknown, 4, false, true)
    } else if i == 3 {
        // outside the retention period, without files
        dated(Created::Now, 9, false, true)
    } else if i == 4 {
        dated(Created::OverOneDayAgo, 10, false, false)
    } else if i == 5 {
        dated(Created::Unknown, 11, false, false)
    } else if i == 6 {
        // within the retention period, with files
        dated(Created::Now, 5, true, true)
    } else if i == 7 {
        dated(Created::OverOneDayAgo, 6, true, true)
    } else if i == 8 {
        dated(Created::Unknown, 7, true, true)
    } else if i == 9 {
        // outside the retention period, with files
        dated(Created::Now, 12, true, true)
    } else if i == 10 {
        dated(Created::OverOneDayAgo, 13, true, true)
    } else if i == 11 {
        dated(Created::Unknown, 14, true, true)
    } else if i == 12 {
        // without a date, without files
        undated(Created::Now, false)
    } else if i == 13 {
        undated(Created::OverOneDayAgo, false)
    } else if i == 14 {
        undated(Created::Unknown, false)
    } else if i == 15 {
        // without a date, with files
        undated(Created::Now, true)
    } else if i == 16 {
        undated(Created::OverOneDayAgo, true)
    } else {
        undated(Created::Unknown, true)
    }
}

/// The `i`-th candidate.
pub fn get_candidate(i: usize) -> (c: Candidate)
    ensures
        c == candidate(i as int),
{
    match i {
        0 => Candidate {
            created: Created::Now,
            days_ago: Some(2),
            has_parquet_files: false,
            retain: true,
        },
        1 => Candidate {
            created: Created::OverOneDayAgo,
            days_ago: Some(3),
            has_parquet_files: false,
            retain: true,
        },
        2 => Candidate {
            created: Created::Unknown,
            days_ago: Some(4),
            has_parquet_files: false,
            retain: true,
        },
        3 => Candidate {
            created: Created::Now,
            days_ago: Some(9),
            has_parquet_files: false,
            retain: true,
        },
        4 => Candidate {
            created: Created::OverOneDayAgo,
            days_ago: Some(10),
            has_parquet_files: false,
            retain: false,
        },
        5 => Candidate {
            created: Created::Unknown,
            days_ago: Some(11),
            has_parquet_files: false,
            retain: false,
        },
        6 => Candidate {
            created: Created::Now,
            days_ago: Some(5),
            has_parquet_files: true,
            retain: true,
        },
        7 => Candidate {
            created: Created::OverOneDayAgo,
            days_ago: Some(6),
            has_parquet_files: true,
            retain: true,
        },
        8 => Candidate {
            created: Created::Unknown,
            days_ago: Some(7),
            has_parquet_files: true,
            retain: true,
        },
        9 => Candidate {
            created: Created::Now,
            days_ago: Some(12),
            has_parquet_files: true,
            retain: true,
        },
        10 => Candidate {
            created: Created::OverOneDayAgo,
            days_ago: Some(13),
            has_parquet_files: true,
            retain: true,
        },
        11 => Candidate {
            created: Created::Unknown,
            days_ago: Some(14),
            has_parquet_files: true,
            retain: true,
        },
        12 => Candidate {
            created: Created::Now,
            days_ago: None,
            has_parquet_files: false,
            retain: true,
        },
        13 => Candidate {
            created: Created::OverOneDayAgo,
            days_ago: None,
            has_parquet_files: false,
            retain: true,
        },
        14 => Candidate {
            created: Created::Unknown,
            days_ago: None,
            has_parquet_files: false,
            retain: true,
        },
        15 => Candidate {
            created: Created::Now,
            days_ago: None,
            has_parquet_files: true,
            retain: true,
        },
        16 => Candidate {
            created: Created::OverOneDayAgo,
            days_ago: None,
            has_parquet_files: true,
            retain: true,
        },
        _ => Candidate {
            created: Created::Unknown,
            days_ago: None,
            has_parquet_files: true,
            retain: true,
        },
    }
}

/// A partition can be removed: its key shows a date that is not kept any more, it has no files, and
/// it was not created a moment ago.
pub open spec fn removable(c: Candidate) -> bool {
    &&& c.days_ago matches Some(days) && days > RETENTION_DAYS
    &&& !c.has_parquet_files
    &&& c.created != Created::Now
}

/// A candidate is retained unless it can be removed. So it is if its key shows no date, if its date
/// is within the retention period, if it has files, or if it was created a moment ago.
pub proof fn law_only_removable_partitions_go(i: int)
    requires
        0 <= i < CANDIDATES,
    ensures
        candidate(i).retain == !removable(candidate(i)),
{
}

/// Every combination occurs among the candidates: of when a partition was created, of whether its
/// key shows a date, and one that is kept, and of whether it has files.
pub proof fn law_every_combination_occurs(
    created: Created,
    kept: Option<bool>,
    has_files: bool,
) -> (i: int)
    ensures
        0 <= i < CANDIDATES,
        candidate(i).created == created,
        candidate(i).has_parquet_files == has_files,
        match kept {
            Some(k) => candidate(i).days_ago is Some && (
                candidate(i).days_ago->0 <= RETENTION_DAYS
            ) == k,
            None => candidate(i).days_ago is None,
        },
{
    let c: int = match created {
        Created::Now => 0,
        Created::OverOneDayAgo => 1,
        Created::Unknown => 2,
    };
    let f: int = if has_files {
        1
    } else {
        0
    };
    match kept {
        Some(true) => 6 * f + c,
        Some(false) => 6 * f + 3 + c,
        None => 12 + 3 * f + c,
    }
}

} // verus!
