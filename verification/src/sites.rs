//! Site definitions: the per-site probe templates and detection settings,
//! and filtering of the loaded database down to one requested site.

use crate::text::lower_of;
use crate::text::lowercase;
use vstd::prelude::*;

verus! {

/// One site's probe settings, loaded read-only from the site database.
/// `url` and `url_probe` are templates with a `{}` placeholder for the
/// username; `error_type` names the detection method; `error_msg` holds the
/// error marker (several markers joined by `|`); `regex_check` is an
/// optional username-validity pattern; the two canary usernames serve
/// validation mode only.
#[derive(Debug, Clone)]
pub struct SiteData {
    pub error_type: String,
    pub error_msg: String,
    pub url: String,
    pub url_main: String,
    pub url_probe: String,
    pub error_url: String,
    pub username_claimed: String,
    pub username_unclaimed: String,
    pub regex_check: String,
}

impl SiteData {
    /// A field-by-field copy whose contents are known to match.
    pub fn duplicate(&self) -> (r: SiteData)
        ensures
            r == *self,
    {
        SiteData {
            error_type: self.error_type.clone(),
            error_msg: self.error_msg.clone(),
            url: self.url.clone(),
            url_main: self.url_main.clone(),
            url_probe: self.url_probe.clone(),
            error_url: self.error_url.clone(),
            username_claimed: self.username_claimed.clone(),
            username_unclaimed: self.username_unclaimed.clone(),
            regex_check: self.regex_check.clone(),
        }
    }
}

/// One named entry of the site database.
#[derive(Debug, Clone)]
pub struct SiteEntry {
    pub name: String,
    pub data: SiteData,
}

impl SiteEntry {
    /// A field-by-field copy whose contents are known to match.
    pub fn duplicate(&self) -> (r: SiteEntry)
        ensures
            r == *self,
    {
        SiteEntry { name: self.name.clone(), data: self.data.duplicate() }
    }
}

/// The loaded site database: named site definitions in load order.  Its
/// invariant, inherited from the name-keyed map it is loaded from, is
/// `unique_names`: the loader establishes it, and `filter_sites`
/// preserves it.
pub type SiteDatabase = Vec<SiteEntry>;

/// No two entries of the database share a name.
pub open spec fn unique_names(db: Seq<SiteEntry>) -> bool {
    forall|i: int, j: int|
        0 <= i < j < db.len() ==> #[trigger] db[i].name@ != #[trigger] db[j].name@
}

/// The entries whose lowercased name equals `key`, in their original order.
pub open spec fn matching_entries(db: Seq<SiteEntry>, key: Seq<char>) -> Seq<SiteEntry>
    decreases db.len(),
{
    if db.len() == 0 {
        Seq::<SiteEntry>::empty()
    } else if lower_of(db[0].name@) == key {
        seq![db[0]] + matching_entries(db.drop_first(), key)
    } else {
        matching_entries(db.drop_first(), key)
    }
}

/// Every entry kept by the filter carries the name of some entry of the
/// database.
proof fn lemma_matching_names(db: Seq<SiteEntry>, key: Seq<char>)
    ensures
        forall|k: int|
            0 <= k < matching_entries(db, key).len() ==> exists|t: int|
                0 <= t < db.len() && (#[trigger] matching_entries(db, key)[k]).name@
                    == db[t].name@,
    decreases db.len(),
{
    if db.len() > 0 {
        let rest = db.drop_first();
        lemma_matching_names(rest, key);
        let m = matching_entries(db, key);
        let mr = matching_entries(rest, key);
        if lower_of(db[0].name@) == key {
            assert forall|k: int| 0 <= k < m.len() implies exists|t: int|
                0 <= t < db.len() && (#[trigger] m[k]).name@ == db[t].name@ by {
                if k == 0 {
                    assert(m[0] == db[0]);
                    assert(m[0].name@ == db[0].name@);
                } else {
                    assert(m[k] == mr[k - 1]);
                    let t = choose|t: int| 0 <= t < rest.len() && mr[k - 1].name@ == rest[t].name@;
                    assert(rest[t] == db[t + 1]);
                    assert(m[k].name@ == db[t + 1].name@);
                }
            }
        } else {
            assert forall|k: int| 0 <= k < m.len() implies exists|t: int|
                0 <= t < db.len() && (#[trigger] m[k]).name@ == db[t].name@ by {
                assert(m[k] == mr[k]);
                let t = choose|t: int| 0 <= t < rest.len() && mr[k].name@ == rest[t].name@;
                assert(rest[t] == db[t + 1]);
                assert(m[k].name@ == db[t + 1].name@);
            }
        }
    }
}

/// Filtering a database of pairwise distinct names yields pairwise
/// distinct names again.
proof fn lemma_matching_preserves_unique(db: Seq<SiteEntry>, key: Seq<char>)
    requires
        unique_names(db),
    ensures
        unique_names(matching_entries(db, key)),
    decreases db.len(),
{
    if db.len() > 0 {
        let rest = db.drop_first();
        assert forall|i: int, j: int| 0 <= i < j < rest.len() implies #[trigger] rest[i].name@
            != #[trigger] rest[j].name@ by {
            assert(rest[i] == db[i + 1]);
            assert(rest[j] == db[j + 1]);
        }
        lemma_matching_preserves_unique(rest, key);
        lemma_matching_names(rest, key);
        let m = matching_entries(db, key);
        let mr = matching_entries(rest, key);
        if lower_of(db[0].name@) == key {
            assert forall|i: int, j: int| 0 <= i < j < m.len() implies #[trigger] m[i].name@
                != #[trigger] m[j].name@ by {
                if i == 0 {
                    assert(m[0] == db[0]);
                    assert(m[j] == mr[j - 1]);
                    let t = choose|t: int| 0 <= t < rest.len() && mr[j - 1].name@ == rest[t].name@;
                    assert(rest[t] == db[t + 1]);
                    assert(db[0].name@ != db[t + 1].name@);
                } else {
                    assert(m[i] == mr[i - 1]);
                    assert(m[j] == mr[j - 1]);
                }
            }
        }
    }
}

/// Narrow the database to one requested site, compared case-insensitively;
/// with no filter the whole database is kept.  Name-uniqueness of the
/// database carries over to the filtered result.
pub fn filter_sites(database: &SiteDatabase, site_filter: Option<&str>) -> (r: SiteDatabase)
    ensures
        match site_filter {
            Option::None => r@ == database@,
            Option::Some(f) => r@ == matching_entries(database@, lower_of(f@)),
        },
        unique_names(database@) ==> unique_names(r@),
{
    match site_filter {
        Option::None => {
            let mut r: SiteDatabase = Vec::new();
            let len: usize = database.len();
            let mut i: usize = 0;
            while i < len
                invariant
                    i <= len,
                    len == database@.len(),
                    r@ == database@.subrange(0, i as int),
                decreases len - i,
            {
                r.push(database[i].duplicate());
                assert(r@ =~= database@.subrange(0, i + 1 as int));
                i = i + 1;
            }
            assert(r@ =~= database@);
            r
        },
        Option::Some(f) => {
            let key: String = lowercase(f);
            let mut r: SiteDatabase = Vec::new();
            let len: usize = database.len();
            let mut i: usize = 0;
            proof {
                assert(database@.subrange(0, len as int) =~= database@);
                assert(database@.subrange(i as int, len as int) =~= database@);
            }
            while i < len
                invariant
                    i <= len,
                    len == database@.len(),
                    key@ == lower_of(f@),
                    matching_entries(database@, key@) == r@ + matching_entries(
                        database@.subrange(i as int, len as int),
                        key@,
                    ),
                decreases len - i,
            {
                let ghost rest = database@.subrange(i as int, len as int);
                let lower_name: String = lowercase(database[i].name.as_str());
                if lower_name == key {
                    r.push(database[i].duplicate());
                } else {
                    proof {
                        assert(lower_of(rest[0].name@) != key@);
                    }
                }
                proof {
                    assert(rest[0] == database@[i as int]);
                    assert(rest.drop_first() =~= database@.subrange(i + 1, len as int));
                }
                i = i + 1;
            }
            proof {
                assert(matching_entries(database@.subrange(len as int, len as int), key@)
                    =~= Seq::<SiteEntry>::empty());
                assert(r@ + Seq::<SiteEntry>::empty() =~= r@);
                if unique_names(database@) {
                    lemma_matching_preserves_unique(database@, key@);
                }
            }
            r
        },
    }
}

} // verus!
