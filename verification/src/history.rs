//! Cleanup history entries: their queries, filters, exports and statistics.
use vstd::prelude::*;

use crate::text::{
    chars_eq_str, chars_of, push_chars, push_decimal, push_str, string_from, string_of, trim_chars,
    trimmed,
};
use crate::history_runs::nonnegative;
use crate::winpath::{has_extension, is_absolute, is_absolute_exec, spec_extension};

verus! {

/// The largest page of history entries that a query may ask for.
pub const MAX_PAGE_SIZE: u32 = 100;

/// Whether a cleanup was started by the user or automatically.
#[derive(Debug, Clone, Copy, PartialEq, Eq, Structural)]
pub enum CleanSource {
    Manual,
    Auto,
}

impl CleanSource {
    pub open spec fn spec_name(self) -> Seq<char> {
        match self {
            CleanSource::Manual => "manual"@,
            CleanSource::Auto => "auto"@,
        }
    }

    /// The stored name of the source.
    pub fn as_str(self) -> (r: &'static str)
        ensures
            r@ == self.spec_name(),
    {
        match self {
            CleanSource::Manual => "manual",
            CleanSource::Auto => "auto",
        }
    }

    /// The source stored under `value`, if it is `manual` or `auto`.
    pub fn from_str(value: &str) -> (r: Option<CleanSource>)
        ensures
            r matches Some(s) ==> s.spec_name() == value@,
            r is None ==> value@ != "manual"@ && value@ != "auto"@,
    {
        let chars = chars_of(value);
        if chars_eq_str(chars.as_slice(), "manual") {
            Some(CleanSource::Manual)
        } else if chars_eq_str(chars.as_slice(), "auto") {
            Some(CleanSource::Auto)
        } else {
            None
        }
    }
}

/// A history entry about to be written.
#[derive(Debug, Clone, PartialEq, Eq)]
pub struct NewCleanRecord {
    pub run_id: Option<i64>,
    pub item_path: String,
    pub item_type: String,
    pub rule_id: Option<i64>,
    pub rule_keyword: Option<String>,
    pub source: CleanSource,
}

/// Which history entries a listing or export covers.
#[derive(Debug, Clone, PartialEq, Eq)]
pub struct HistoryFilter {
    pub search: String,
    pub item_type: Option<String>,
    pub matched_by_rule: Option<bool>,
    pub date_range: Option<String>,
}

impl Default for HistoryFilter {
    fn default() -> (r: HistoryFilter)
        ensures
            r.search@.len() == 0 && r.item_type is None && r.matched_by_rule is None
                && r.date_range is None,
    {
        HistoryFilter { search: String::new(), item_type: None, matched_by_rule: None, date_range: None }
    }
}

/// A page of history entries to list.
#[derive(Debug, Clone, PartialEq, Eq)]
pub struct HistoryQuery {
    pub page: u32,
    pub page_size: u32,
    pub sort_by: String,
    pub sort_order: String,
    pub filter: HistoryFilter,
}

/// The file format of a history export.
#[derive(Debug, Clone, Copy, PartialEq, Eq, Structural)]
pub enum HistoryExportFormat {
    Csv,
    Json,
}

impl HistoryExportFormat {
    pub open spec fn spec_extension(self) -> Seq<char> {
        match self {
            HistoryExportFormat::Csv => "csv"@,
            HistoryExportFormat::Json => "json"@,
        }
    }

    /// The file extension that an export in this format must carry.
    pub fn extension(self) -> (r: &'static str)
        ensures
            r@ == self.spec_extension(),
    {
        match self {
            HistoryExportFormat::Csv => "csv",
            HistoryExportFormat::Json => "json",
        }
    }
}

/// The outcome of an export.
#[derive(Debug, Clone, PartialEq, Eq)]
pub struct HistoryExportResult {
    pub count: u64,
    pub path: String,
    pub format: HistoryExportFormat,
}

/// A stored history entry.
#[derive(Debug, Clone, PartialEq, Eq)]
pub struct CleanRecord {
    pub id: i64,
    pub run_id: Option<i64>,
    pub item_path: String,
    pub item_type: String,
    pub rule_id: Option<i64>,
    pub rule_keyword: Option<String>,
    pub source: CleanSource,
    pub cleaned_at: String,
}

/// One page of history entries, with the filtered and the overall count.
#[derive(Debug, Clone, PartialEq, Eq)]
pub struct CleanRecordPage {
    pub records: Vec<CleanRecord>,
    pub total: u64,
    pub overall_total: u64,
    pub page: u32,
    pub page_size: u32,
}

/// The number of entries cleaned in one day or week.
#[derive(Debug, Clone, PartialEq, Eq)]
pub struct StatsTrendPoint {
    pub period: String,
    pub count: u64,
}

/// How often entries were cleaned because of one keyword.
#[derive(Debug, Clone, PartialEq, Eq)]
pub struct RuleHitStat {
    pub keyword: String,
    pub count: u64,
}

/// Cleanup statistics over the retained history.
#[derive(Debug, Clone, PartialEq, Eq)]
pub struct Stats {
    pub total: u64,
    pub recent_files: u64,
    pub frequent_folders: u64,
    pub daily_trend: Vec<StatsTrendPoint>,
    pub weekly_trend: Vec<StatsTrendPoint>,
    pub rule_hits: Vec<RuleHitStat>,
}

/// Counts of the retained history.
#[derive(Debug, Clone, Copy, PartialEq, Eq, Structural)]
pub struct HistoryTotals {
    pub total: u64,
    pub recent_files: u64,
    pub frequent_folders: u64,
}

/// The period that statistics cover.
#[derive(Debug, Clone, Copy, PartialEq, Eq, Structural)]
pub enum StatsRange {
    Last7Days,
    Last30Days,
    All,
}

impl StatsRange {
    /// The SQLite date modifier for the first day of the range; none for all time.
    pub fn date_modifier(self) -> (r: Option<&'static str>)
        ensures
            match self {
                StatsRange::Last7Days => r matches Some(m) && m@ == "-6 days"@,
                StatsRange::Last30Days => r matches Some(m) && m@ == "-29 days"@,
                StatsRange::All => r is None,
            },
    {
        match self {
            StatsRange::Last7Days => Some("-6 days"),
            StatsRange::Last30Days => Some("-29 days"),
            StatsRange::All => None,
        }
    }
}

/// Rejections of history requests.
#[derive(Debug, Clone, PartialEq, Eq)]
pub enum HistoryError {
    Page,
    PageSize,
    SortField(String),
    SortOrder,
    ItemType(String),
    DateRange(String),
    ExportPathEmpty,
    ExportPathNotAbsolute,
    ExportExtension(HistoryExportFormat),
    CountTooLarge,
    Negative(String),
}

pub open spec fn history_error_text(e: HistoryError) -> Seq<char> {
    match e {
        HistoryError::Page => "history page must be at least 1"@,
        HistoryError::PageSize => "history page_size must be between 1 and 100"@,
        HistoryError::SortField(f) => "unsupported history sort field: "@ + f@,
        HistoryError::SortOrder => "history sort_order must be asc or desc"@,
        HistoryError::ItemType(v) => "unsupported history item_type: "@ + v@,
        HistoryError::DateRange(v) => "unsupported history date_range: "@ + v@,
        HistoryError::ExportPathEmpty => "history export path is empty"@,
        HistoryError::ExportPathNotAbsolute => "history export path must be absolute"@,
        HistoryError::ExportExtension(f) => "history export path must use the ."@ + f.spec_extension()
            + " extension"@,
        HistoryError::CountTooLarge => "cleanup run count is too large"@,
        HistoryError::Negative(label) => label@ + " is negative"@,
    }
}

impl HistoryError {
    /// The description of the rejection.
    pub fn message(&self) -> (r: String)
        ensures
            r@ == history_error_text(*self),
    {
        let mut out = String::new();
        match self {
            HistoryError::Page => push_str(&mut out, "history page must be at least 1"),
            HistoryError::PageSize => {
                push_str(&mut out, "history page_size must be between 1 and ");
                push_decimal(&mut out, MAX_PAGE_SIZE as u64);
                proof {
                    reveal_strlit("history page_size must be between 1 and ");
                    reveal_strlit("history page_size must be between 1 and 100");
                    assert(crate::text::digits(100, 10) == seq!['1', '0', '0']) by {
                        reveal_with_fuel(crate::text::digits, 3);
                    }
                    assert(out@ =~= "history page_size must be between 1 and 100"@);
                }
            },
            HistoryError::SortField(f) => {
                push_str(&mut out, "unsupported history sort field: ");
                push_str(&mut out, f.as_str());
            },
            HistoryError::SortOrder => push_str(&mut out, "history sort_order must be asc or desc"),
            HistoryError::ItemType(v) => {
                push_str(&mut out, "unsupported history item_type: ");
                push_str(&mut out, v.as_str());
            },
            HistoryError::DateRange(v) => {
                push_str(&mut out, "unsupported history date_range: ");
                push_str(&mut out, v.as_str());
            },
            HistoryError::ExportPathEmpty => push_str(&mut out, "history export path is empty"),
            HistoryError::ExportPathNotAbsolute => push_str(
                &mut out,
                "history export path must be absolute",
            ),
            HistoryError::ExportExtension(f) => {
                push_str(&mut out, "history export path must use the .");
                push_str(&mut out, f.extension());
                push_str(&mut out, " extension");
            },
            HistoryError::CountTooLarge => push_str(&mut out, "cleanup run count is too large"),
            HistoryError::Negative(label) => {
                push_str(&mut out, label.as_str());
                push_str(&mut out, " is negative");
            },
        }
        out
    }
}

/// A filter in the form that the history queries bind.
#[derive(Debug, Clone, PartialEq, Eq)]
pub struct ValidatedHistoryFilter {
    pub search: Option<String>,
    pub item_type: Option<&'static str>,
    pub matched_by_rule: Option<i64>,
    pub date_modifier: Option<&'static str>,
}

/// `s` with the SQL `LIKE` wildcards `%` and `_`, and the escape character `\`,
/// each escaped by a preceding `\`.
pub open spec fn like_escaped(s: Seq<char>) -> Seq<char>
    decreases s.len(),
{
    if s.len() == 0 {
        seq![]
    } else {
        let c = s.last();
        let prev = like_escaped(s.drop_last());
        if c == '\\' || c == '%' || c == '_' {
            prev + seq!['\\', c]
        } else {
            prev.push(c)
        }
    }
}

/// The `LIKE` pattern for a search: the trimmed text, escaped, between `%`
/// wildcards; no pattern for blank text.
pub open spec fn spec_search_pattern(search: Seq<char>) -> Option<Seq<char>> {
    let t = trimmed(search);
    if t.len() == 0 {
        None
    } else {
        Some(seq!['%'] + like_escaped(t) + seq!['%'])
    }
}

/// The `LIKE` pattern that finds `search` as literal text.
pub fn history_search_pattern(search: &str) -> (r: Option<String>)
    ensures
        match spec_search_pattern(search@) {
            Some(p) => r matches Some(s) && s@ == p,
            None => r is None,
        },
{
    let chars = chars_of(search);
    let t = trim_chars(chars.as_slice());
    if t.len() == 0 {
        return None;
    }
    let mut out = String::new();
    out.push('%');
    let mut i: usize = 0;
    while i < t.len()
        invariant
            i <= t.len(),
            out@ == seq!['%'] + like_escaped(t@.take(i as int)),
        decreases t.len() - i,
    {
        let c = t[i];
        assert(t@.take(i + 1).drop_last() == t@.take(i as int));
        assert(t@.take(i + 1).last() == c);
        if c == '\\' || c == '%' || c == '_' {
            out.push('\\');
            out.push(c);
        } else {
            out.push(c);
        }
        i = i + 1;
    }
    out.push('%');
    assert(t@.take(t.len() as int) == t@);
    Some(out)
}

/// The stored item type that a filter names.
pub open spec fn spec_item_type(v: Seq<char>) -> Option<Seq<char>> {
    if v == "recent_file"@ {
        Some("recent_file"@)
    } else if v == "frequent_folder"@ {
        Some("frequent_folder"@)
    } else {
        None
    }
}

/// The filter's item type, if it has one, names a stored item type.
pub open spec fn item_type_ok(filter: HistoryFilter) -> bool {
    match filter.item_type {
        Some(v) => spec_item_type(v@) is Some,
        None => true,
    }
}

/// The filter's date range, if it has one, is `7d` or `30d`.
pub open spec fn date_range_ok(filter: HistoryFilter) -> bool {
    match filter.date_range {
        Some(d) => crate::history_runs::spec_date_modifier(d@) is Some,
        None => true,
    }
}

/// `v` holds the values that `filter` binds: the search pattern, the stored item
/// type, whether a rule matched (as 1 or 0) and the date modifier.
pub open spec fn is_validated_filter(filter: HistoryFilter, v: ValidatedHistoryFilter) -> bool {
    &&& match spec_search_pattern(filter.search@) {
        Some(p) => v.search matches Some(s) && s@ == p,
        None => v.search is None,
    }
    &&& match filter.item_type {
        Some(t) => v.item_type matches Some(x) && Some(x@) == spec_item_type(t@),
        None => v.item_type is None,
    }
    &&& v.matched_by_rule == match filter.matched_by_rule {
        Some(b) => Some(if b {
            1i64
        } else {
            0i64
        }),
        None => None,
    }
    &&& match filter.date_range {
        Some(d) => v.date_modifier matches Some(x) && Some(x@) == crate::history_runs::spec_date_modifier(d@),
        None => v.date_modifier is None,
    }
}

/// The refusal of an invalid filter: its item type is checked first, then its date
/// range; each refusal names the value refused.
pub open spec fn is_filter_refusal(filter: HistoryFilter, e: HistoryError) -> bool {
    if !item_type_ok(filter) {
        e matches HistoryError::ItemType(t) && t@ == filter.item_type->0@
    } else {
        e matches HistoryError::DateRange(t) && t@ == filter.date_range->0@
    }
}

/// Validates a history filter into the values that its query binds.
pub fn validate_history_filter(filter: HistoryFilter) -> (r: Result<ValidatedHistoryFilter, HistoryError>)
    ensures
        r is Ok <==> item_type_ok(filter) && date_range_ok(filter),
        r matches Ok(v) ==> is_validated_filter(filter, v),
        r matches Err(e) ==> is_filter_refusal(filter, e),
{
    let item_type: Option<&'static str> = match &filter.item_type {
        None => None,
        Some(v) => {
            let chars = chars_of(v.as_str());
            if chars_eq_str(chars.as_slice(), "recent_file") {
                Some("recent_file")
            } else if chars_eq_str(chars.as_slice(), "frequent_folder") {
                Some("frequent_folder")
            } else {
                return Err(HistoryError::ItemType(v.clone()));
            }
        },
    };
    let date_modifier = match &filter.date_range {
        None => None,
        Some(d) => {
            let chars = chars_of(d.as_str());
            if chars_eq_str(chars.as_slice(), "7d") {
                Some("-6 days")
            } else if chars_eq_str(chars.as_slice(), "30d") {
                Some("-29 days")
            } else {
                return Err(HistoryError::DateRange(d.clone()));
            }
        },
    };
    let matched_by_rule = match filter.matched_by_rule {
        Some(b) => Some(
            if b {
                1i64
            } else {
                0i64
            },
        ),
        None => None,
    };
    Ok(
        ValidatedHistoryFilter {
            search: history_search_pattern(filter.search.as_str()),
            item_type,
            matched_by_rule,
            date_modifier,
        },
    )
}

/// The column that a sort field names.
pub open spec fn spec_sort_column(f: Seq<char>) -> Option<Seq<char>> {
    if f == "cleaned_at"@ || f == "item_path"@ || f == "item_type"@ || f == "rule_keyword"@ {
        Some(f)
    } else {
        None
    }
}

/// The SQL direction that a sort order names.
pub open spec fn spec_sort_order(o: Seq<char>) -> Option<Seq<char>> {
    if o == "asc"@ {
        Some("ASC"@)
    } else if o == "desc"@ {
        Some("DESC"@)
    } else {
        None
    }
}

/// A history query in the form that its statement binds.
#[derive(Debug, Clone, PartialEq, Eq)]
pub struct ValidatedHistoryQuery {
    pub sort_column: &'static str,
    pub sort_order: &'static str,
    pub filter: ValidatedHistoryFilter,
    pub offset: i64,
    pub limit: i64,
}

/// Validates a history query: pages start at 1 and hold 1 to 100 entries, the sort
/// field is one of four columns and the order `asc` or `desc`. Only these names
/// reach the statement's text.
pub fn validate_history_query(query: HistoryQuery) -> (r: Result<ValidatedHistoryQuery, HistoryError>)
    ensures
        query.page == 0 ==> r == Err::<ValidatedHistoryQuery, HistoryError>(HistoryError::Page),
        query.page != 0 && !(1 <= query.page_size <= MAX_PAGE_SIZE) ==> r == Err::<
            ValidatedHistoryQuery,
            HistoryError,
        >(HistoryError::PageSize),
        query.page != 0 && 1 <= query.page_size <= MAX_PAGE_SIZE && spec_sort_column(query.sort_by@)
            is None ==> (r matches Err(HistoryError::SortField(f)) && f@ == query.sort_by@),
        query.page != 0 && 1 <= query.page_size <= MAX_PAGE_SIZE && spec_sort_column(query.sort_by@)
            is Some && spec_sort_order(query.sort_order@) is None ==> r == Err::<
            ValidatedHistoryQuery,
            HistoryError,
        >(HistoryError::SortOrder),
        query.page != 0 && 1 <= query.page_size <= MAX_PAGE_SIZE && spec_sort_column(query.sort_by@)
            is Some && spec_sort_order(query.sort_order@) is Some ==> {
            &&& r is Ok <==> item_type_ok(query.filter) && date_range_ok(query.filter)
            &&& r matches Err(e) ==> is_filter_refusal(query.filter, e)
        },
        r matches Ok(v) ==> {
            &&& Some(v.sort_column@) == spec_sort_column(query.sort_by@)
            &&& Some(v.sort_order@) == spec_sort_order(query.sort_order@)
            &&& is_validated_filter(query.filter, v.filter)
            &&& v.offset == (query.page - 1) * query.page_size
            &&& v.limit == query.page_size
        },
{
    if query.page == 0 {
        return Err(HistoryError::Page);
    }
    if !(1 <= query.page_size && query.page_size <= MAX_PAGE_SIZE) {
        return Err(HistoryError::PageSize);
    }
    let sort = chars_of(query.sort_by.as_str());
    let sort_column: &'static str = if chars_eq_str(sort.as_slice(), "cleaned_at") {
        "cleaned_at"
    } else if chars_eq_str(sort.as_slice(), "item_path") {
        "item_path"
    } else if chars_eq_str(sort.as_slice(), "item_type") {
        "item_type"
    } else if chars_eq_str(sort.as_slice(), "rule_keyword") {
        "rule_keyword"
    } else {
        return Err(HistoryError::SortField(query.sort_by));
    };
    let order = chars_of(query.sort_order.as_str());
    let sort_order: &'static str = if chars_eq_str(order.as_slice(), "asc") {
        "ASC"
    } else if chars_eq_str(order.as_slice(), "desc") {
        "DESC"
    } else {
        return Err(HistoryError::SortOrder);
    };
    let filter = validate_history_filter(query.filter)?;
    let page = query.page as i64 - 1;
    let size = query.page_size as i64;
    assert(0 <= page * size <= 0xffff_ffff * 100) by (nonlinear_arith)
        requires
            0 <= page <= 0xffff_ffff,
            0 <= size <= 100,
    ;
    let offset: i64 = page * size;
    Ok(ValidatedHistoryQuery { sort_column, sort_order, filter, offset, limit: query.page_size as i64 })
}

/// Checks the syntax of an export target: not blank, absolute, and carrying the
/// format's extension (in any ASCII case). Whether its folder exists is for the
/// caller to check.
pub fn validate_export_path(path: &str, format: HistoryExportFormat) -> (r: Result<(), HistoryError>)
    ensures
        trimmed(path@).len() == 0 ==> r == Err::<(), HistoryError>(HistoryError::ExportPathEmpty),
        trimmed(path@).len() > 0 && !is_absolute(path@) ==> r == Err::<(), HistoryError>(
            HistoryError::ExportPathNotAbsolute,
        ),
        trimmed(path@).len() > 0 && is_absolute(path@) ==> (r is Ok <==> (spec_extension(path@) matches Some(
            x,
        ) && crate::text::ascii_lowercase(x) == format.spec_extension())),
        r matches Err(e) ==> (e == HistoryError::ExportPathEmpty || e == HistoryError::ExportPathNotAbsolute
            || e == HistoryError::ExportExtension(format)),
{
    let chars = chars_of(path);
    let t = trim_chars(chars.as_slice());
    if t.len() == 0 {
        return Err(HistoryError::ExportPathEmpty);
    }
    if !is_absolute_exec(chars.as_slice()) {
        return Err(HistoryError::ExportPathNotAbsolute);
    }
    if !has_extension(chars.as_slice(), format.extension()) {
        return Err(HistoryError::ExportExtension(format));
    }
    Ok(())
}

/// Whether changing the retention from `current` to `next` entries (0 keeping
/// everything) requires trimming the stored history now.
pub fn retention_requires_trim(current: usize, next: usize) -> (r: bool)
    ensures
        r == (next > 0 && (current == 0 || next < current)),
{
    next > 0 && (current == 0 || next < current)
}

/// The retained-history totals from the stored counts, none of which may be negative.
pub fn history_totals(total: i64, recent_files: i64, frequent_folders: i64) -> (r: Result<HistoryTotals, HistoryError>)
    ensures
        total < 0 ==> (r matches Err(HistoryError::Negative(l)) && l@ == "cleanup total"@),
        total >= 0 && recent_files < 0 ==> (r matches Err(HistoryError::Negative(l)) && l@ == "recent file total"@),
        total >= 0 && recent_files >= 0 && frequent_folders < 0 ==> (r matches Err(HistoryError::Negative(l)) && l@
            == "frequent folder total"@),
        total >= 0 && recent_files >= 0 && frequent_folders >= 0 ==> r == Ok::<HistoryTotals, HistoryError>(
            HistoryTotals { total: total as u64, recent_files: recent_files as u64, frequent_folders: frequent_folders as u64 },
        ),
{
    let total = match nonnegative(total, "cleanup total") {
        Ok(v) => v,
        Err(e) => {
            return Err(e);
        },
    };
    let recent = match nonnegative(recent_files, "recent file total") {
        Ok(v) => v,
        Err(e) => {
            return Err(e);
        },
    };
    let frequent = match nonnegative(frequent_folders, "frequent folder total") {
        Ok(v) => v,
        Err(e) => {
            return Err(e);
        },
    };
    Ok(HistoryTotals { total, recent_files: recent, frequent_folders: frequent })
}

/// A page of history entries from the stored rows and counts: `total` counts the
/// entries that match the filter, `overall_total` all entries; neither may be negative.
pub fn record_page(records: Vec<CleanRecord>, total: i64, overall_total: i64, page: u32, page_size: u32) -> (r: Result<
    CleanRecordPage,
    HistoryError,
>)
    ensures
        (overall_total < 0 || total < 0) ==> (r matches Err(HistoryError::Negative(l)) && l@ == "clean record count"@),
        overall_total >= 0 && total >= 0 ==> (r matches Ok(p) && p.records@ == records@ && p.total == total
            && p.overall_total == overall_total && p.page == page && p.page_size == page_size),
{
    let overall = match nonnegative(overall_total, "clean record count") {
        Ok(v) => v,
        Err(e) => {
            return Err(e);
        },
    };
    let filtered = match nonnegative(total, "clean record count") {
        Ok(v) => v,
        Err(e) => {
            return Err(e);
        },
    };
    Ok(CleanRecordPage { records, total: filtered, overall_total: overall, page, page_size })
}

/// Trends are computed only for a history that holds entries.
pub fn trends_needed(totals: &HistoryTotals) -> (r: bool)
    ensures
        r == (totals.total > 0),
{
    totals.total > 0
}

/// One point of a trend, whose count may not be negative.
pub fn trend_point(period: String, count: i64) -> (r: Result<StatsTrendPoint, HistoryError>)
    ensures
        count < 0 ==> (r matches Err(HistoryError::Negative(l)) && l@ == "cleanup trend count"@),
        count >= 0 ==> (r matches Ok(p) && p.period == period && p.count == count),
{
    match nonnegative(count, "cleanup trend count") {
        Ok(c) => Ok(StatsTrendPoint { period, count: c }),
        Err(e) => Err(e),
    }
}

/// The hits of one rule keyword, whose count may not be negative.
pub fn rule_hit(keyword: String, count: i64) -> (r: Result<RuleHitStat, HistoryError>)
    ensures
        count < 0 ==> (r matches Err(HistoryError::Negative(l)) && l@ == "rule hit count"@),
        count >= 0 ==> (r matches Ok(h) && h.keyword == keyword && h.count == count),
{
    match nonnegative(count, "rule hit count") {
        Ok(c) => Ok(RuleHitStat { keyword, count: c }),
        Err(e) => Err(e),
    }
}

/// The statistics: the totals, the trends (empty for an empty history) and the
/// rule hits.
pub fn stats_from(
    totals: HistoryTotals,
    daily_trend: Vec<StatsTrendPoint>,
    weekly_trend: Vec<StatsTrendPoint>,
    rule_hits: Vec<RuleHitStat>,
) -> (r: Stats)
    ensures
        r.total == totals.total,
        r.recent_files == totals.recent_files,
        r.frequent_folders == totals.frequent_folders,
        totals.total == 0 ==> r.daily_trend@.len() == 0 && r.weekly_trend@.len() == 0,
        totals.total > 0 ==> r.daily_trend@ == daily_trend@ && r.weekly_trend@ == weekly_trend@,
        r.rule_hits@ == rule_hits@,
{
    if totals.total == 0 {
        Stats {
            total: 0,
            recent_files: totals.recent_files,
            frequent_folders: totals.frequent_folders,
            daily_trend: Vec::new(),
            weekly_trend: Vec::new(),
            rule_hits,
        }
    } else {
        Stats {
            total: totals.total,
            recent_files: totals.recent_files,
            frequent_folders: totals.frequent_folders,
            daily_trend,
            weekly_trend,
            rule_hits,
        }
    }
}

/// A history entry as it is exported: without its row id.
#[derive(Debug, Clone, PartialEq, Eq)]
pub struct ExportCleanRecord {
    pub run_id: Option<i64>,
    pub item_path: String,
    pub item_type: String,
    pub rule_id: Option<i64>,
    pub rule_keyword: Option<String>,
    pub source: CleanSource,
    pub cleaned_at: String,
}

impl ExportCleanRecord {
    /// The exported form of `record`.
    pub fn from_record(record: CleanRecord) -> (r: ExportCleanRecord)
        ensures
            r.run_id == record.run_id,
            r.item_path == record.item_path,
            r.item_type == record.item_type,
            r.rule_id == record.rule_id,
            r.rule_keyword == record.rule_keyword,
            r.source == record.source,
            r.cleaned_at == record.cleaned_at,
    {
        ExportCleanRecord {
            run_id: record.run_id,
            item_path: record.item_path,
            item_type: record.item_type,
            rule_id: record.rule_id,
            rule_keyword: record.rule_keyword,
            source: record.source,
            cleaned_at: record.cleaned_at,
        }
    }
}

/// The bytes of one CSV record holding `fields`, as the `csv` crate writes it with
/// its default settings (quoting only where needed).
pub uninterp spec fn csv_record_bytes(fields: Seq<Seq<char>>) -> Seq<u8>;

pub open spec fn string_views(fields: Seq<String>) -> Seq<Seq<char>> {
    fields.map_values(|f: String| f@)
}

/// Calls `csv::Writer::write_record` on a fresh writer into memory, without a header,
/// and takes the bytes written with `Writer::into_inner`. The bytes depend on the
/// fields alone. The writer fails only when its underlying writer does, or when a
/// record's length differs from that of the first record it wrote; a fresh writer
/// into a `Vec<u8>` writes one record and never fails, so the result is `Some`.
#[verifier::external_body]
pub(crate) fn csv_record(fields: &Vec<String>) -> (r: Option<Vec<u8>>)
    ensures
        r is Some,
        r matches Some(b) ==> b@ == csv_record_bytes(string_views(fields@)),
{
    let mut writer = csv::WriterBuilder::new().has_headers(false).from_writer(Vec::new());
    match writer.write_record(fields) {
        Ok(()) => writer.into_inner().ok(),
        Err(_) => None,
    }
}

/// The names of the columns of a CSV history export.
pub open spec fn history_csv_columns() -> Seq<Seq<char>> {
    seq!["run_id"@, "item_path"@, "item_type"@, "rule_id"@, "rule_keyword"@, "source"@, "cleaned_at"@]
}

pub fn history_csv_header() -> (r: Vec<String>)
    ensures
        string_views(r@) == history_csv_columns(),
{
    let mut out: Vec<String> = Vec::new();
    out.push(string_of("run_id"));
    out.push(string_of("item_path"));
    out.push(string_of("item_type"));
    out.push(string_of("rule_id"));
    out.push(string_of("rule_keyword"));
    out.push(string_of("source"));
    out.push(string_of("cleaned_at"));
    assert(string_views(out@) =~= history_csv_columns());
    out
}

pub open spec fn optional_decimal(v: Option<i64>) -> Seq<char> {
    match v {
        Some(n) => crate::text::signed_decimal(n as int),
        None => seq![],
    }
}

/// The CSV fields of an exported entry, in the order of the columns: absent
/// values are empty fields, numbers are written in decimal.
pub open spec fn export_fields(r: ExportCleanRecord) -> Seq<Seq<char>> {
    seq![
        optional_decimal(r.run_id),
        r.item_path@,
        r.item_type@,
        optional_decimal(r.rule_id),
        match r.rule_keyword {
            Some(k) => k@,
            None => seq![],
        },
        r.source.spec_name(),
        r.cleaned_at@,
    ]
}

fn decimal_field(v: Option<i64>) -> (r: String)
    ensures
        r@ == optional_decimal(v),
{
    let mut out = String::new();
    if let Some(n) = v {
        crate::text::push_signed_decimal(&mut out, n);
    }
    assert(out@ =~= optional_decimal(v));
    out
}

pub fn record_csv_fields(record: &ExportCleanRecord) -> (r: Vec<String>)
    ensures
        string_views(r@) == export_fields(*record),
{
    let mut out: Vec<String> = Vec::new();
    out.push(decimal_field(record.run_id));
    out.push(string_of(record.item_path.as_str()));
    out.push(string_of(record.item_type.as_str()));
    out.push(decimal_field(record.rule_id));
    out.push(
        match &record.rule_keyword {
            Some(k) => string_of(k.as_str()),
            None => String::new(),
        },
    );
    out.push(string_of(record.source.as_str()));
    out.push(string_of(record.cleaned_at.as_str()));
    assert(string_views(out@) =~= export_fields(*record));
    out
}

/// The bytes of a CSV history export of `records`: the header record, then one
/// record per entry, in order.
pub open spec fn csv_export_bytes(records: Seq<ExportCleanRecord>) -> Seq<u8>
    decreases records.len(),
{
    if records.len() == 0 {
        csv_record_bytes(history_csv_columns())
    } else {
        csv_export_bytes(records.drop_last()) + csv_record_bytes(export_fields(records.last()))
    }
}

/// The CSV export of `records`. Writing into memory does not fail, so the result is
/// always `Some`.
pub fn csv_export(records: &[ExportCleanRecord]) -> (r: Option<Vec<u8>>)
    ensures
        r matches Some(b) && b@ == csv_export_bytes(records@),
{
    let header = history_csv_header();
    let mut out: Vec<u8> = match csv_record(&header) {
        Some(b) => b,
        None => {
            return None;
        },
    };
    let mut i: usize = 0;
    while i < records.len()
        invariant
            i <= records@.len(),
            out@ == csv_export_bytes(records@.take(i as int)),
        decreases records@.len() - i,
    {
        assert(records@.take(i + 1).drop_last() == records@.take(i as int));
        let fields = record_csv_fields(&records[i]);
        let mut line = match csv_record(&fields) {
            Some(b) => b,
            None => {
                return None;
            },
        };
        out.append(&mut line);
        i = i + 1;
    }
    assert(records@.take(records@.len() as int) == records@);
    Some(out)
}

} // verus!
