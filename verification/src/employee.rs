//! Employees: creating and updating rows, display names, the org chart,
//! onboarding tasks, document uploads and signed read links.
use vstd::prelude::*;

use crate::calendar::Ymd;
use crate::error::{conflict, fails_as, is_conflict, is_validation, not_found, validation, ErrorSpec, KabiPayError};
use crate::ids::{uuid_text, uuid_to_string};
use crate::requests::opt_view;
use crate::scope::{in_scope, is_employee_in_scope, ClientViewerEmployee, EmployeeRef, ScopeType};
use crate::storage::{check_upload_size, max_upload_bytes, tenant_file_path, BlobTarget, StoredFile};
use crate::text::{owned, push_str, trim, trimmed};

verus! {

// ----------------------------------------------------------------------------
// Rows
// ----------------------------------------------------------------------------

/// An `employee` row as the services read and write it.
#[derive(Clone, Debug)]
pub struct EmployeeRow {
    pub id: u128,
    pub tenant_id: u128,
    pub employee_code: String,
    pub first_name: String,
    pub last_name: String,
    pub date_of_joining: Ymd,
    pub department_id: Option<u128>,
    pub designation_id: Option<u128>,
    pub reporting_manager_id: Option<u128>,
    pub employment_type: Option<String>,
    pub status: String,
    pub user_id: Option<u128>,
}

impl EmployeeRow {
    /// What data scoping reads of the row.
    pub open spec fn scope_ref(self) -> EmployeeRef {
        EmployeeRef {
            id: self.id,
            reporting_manager_id: self.reporting_manager_id,
            department_id: self.department_id,
        }
    }

    pub fn to_scope_ref(&self) -> (r: EmployeeRef)
        ensures
            r == self.scope_ref(),
    {
        EmployeeRef {
            id: self.id,
            reporting_manager_id: self.reporting_manager_id,
            department_id: self.department_id,
        }
    }
}

/// `"{first} {last}"` of the trimmed names, trimmed again (one name alone
/// has no stray space).
pub open spec fn full_name_text(first: Seq<char>, last: Seq<char>) -> Seq<char> {
    trimmed(trimmed(first) + " "@ + trimmed(last))
}

/// An employee's display name.
pub fn full_name(first_name: &str, last_name: &str) -> (r: String)
    ensures
        r@ == full_name_text(first_name@, last_name@),
{
    let mut s = trim(first_name);
    push_str(&mut s, " ");
    let l = trim(last_name);
    push_str(&mut s, l.as_str());
    trim(s.as_str())
}

// ----------------------------------------------------------------------------
// Creating and updating employees
// ----------------------------------------------------------------------------

/// A new employee, ids already read.
#[derive(Clone, Debug)]
pub struct NewEmployee {
    pub employee_code: String,
    pub first_name: String,
    pub last_name: String,
    pub date_of_joining: Ymd,
    pub department_id: Option<u128>,
    pub designation_id: Option<u128>,
    /// Must be another active employee of the tenant.
    pub reporting_manager_id: Option<u128>,
    pub employment_type: Option<String>,
    pub status: String,
    pub user_id: Option<u128>,
}

/// Creates an employee with id `new_id`, in order: an employee code the
/// tenant already uses (`code_taken`) is refused; a reporting manager, when
/// given, must not be the new employee and must be an active employee of the
/// tenant (`manager_active` says whether it is; it is not read without a
/// manager). The row keeps the manager.
pub fn create(
    tenant_id: u128,
    new_id: u128,
    data: NewEmployee,
    code_taken: bool,
    manager_active: bool,
) -> (r: Result<EmployeeRow, KabiPayError>)
    ensures
        code_taken ==> is_conflict(r, "employee code is already in use in this tenant"@),
        !code_taken && data.reporting_manager_id == Some(new_id) ==> is_validation(
            r,
            "reporting manager cannot be the employee themself"@,
        ),
        !code_taken && (data.reporting_manager_id matches Some(m) && m != new_id)
            && !manager_active ==> is_validation(
            r,
            "reporting manager must be an active employee of this tenant"@,
        ),
        r is Ok <==> !code_taken && (data.reporting_manager_id matches Some(m) ==> (m != new_id
            && manager_active)),
        r matches Ok(e) ==> e == (EmployeeRow {
            id: new_id,
            tenant_id,
            employee_code: data.employee_code,
            first_name: data.first_name,
            last_name: data.last_name,
            date_of_joining: data.date_of_joining,
            department_id: data.department_id,
            designation_id: data.designation_id,
            reporting_manager_id: data.reporting_manager_id,
            employment_type: data.employment_type,
            status: data.status,
            user_id: data.user_id,
        }),
{
    if code_taken {
        return Err(conflict("employee code is already in use in this tenant"));
    }
    if let Some(m) = data.reporting_manager_id {
        if m == new_id {
            return Err(validation("reporting manager cannot be the employee themself"));
        }
        if !manager_active {
            return Err(validation("reporting manager must be an active employee of this tenant"));
        }
    }
    Ok(
        EmployeeRow {
            id: new_id,
            tenant_id,
            employee_code: data.employee_code,
            first_name: data.first_name,
            last_name: data.last_name,
            date_of_joining: data.date_of_joining,
            department_id: data.department_id,
            designation_id: data.designation_id,
            reporting_manager_id: data.reporting_manager_id,
            employment_type: data.employment_type,
            status: data.status,
            user_id: data.user_id,
        },
    )
}

/// A partial update: each given field replaces the column.
#[derive(Clone, Debug)]
pub struct EmployeePatch {
    pub first_name: Option<String>,
    pub last_name: Option<String>,
    pub department_id: Option<u128>,
    pub designation_id: Option<u128>,
    pub employment_type: Option<String>,
    pub status: Option<String>,
    pub user_id: Option<u128>,
}

/// The row after a patch.
pub open spec fn patched(c: EmployeeRow, p: EmployeePatch) -> EmployeeRow {
    EmployeeRow {
        first_name: match p.first_name {
            Some(v) => v,
            None => c.first_name,
        },
        last_name: match p.last_name {
            Some(v) => v,
            None => c.last_name,
        },
        department_id: match p.department_id {
            Some(v) => Some(v),
            None => c.department_id,
        },
        designation_id: match p.designation_id {
            Some(v) => Some(v),
            None => c.designation_id,
        },
        employment_type: match p.employment_type {
            Some(v) => Some(v),
            None => c.employment_type,
        },
        status: match p.status {
            Some(v) => v,
            None => c.status,
        },
        user_id: match p.user_id {
            Some(v) => Some(v),
            None => c.user_id,
        },
        ..c
    }
}

/// What an update makes of a row, column by column: each field the patch
/// gives replaces the column, each absent one leaves it as it was, and the
/// id, tenant, employee code, joining date and reporting manager stay.
pub open spec fn update_applied(c: EmployeeRow, p: EmployeePatch, e: EmployeeRow) -> bool {
            &&& (p.first_name matches Some(v) ==> e.first_name == v)
            &&& (p.first_name is None ==> e.first_name == c.first_name)
            &&& (p.last_name matches Some(v) ==> e.last_name == v)
            &&& (p.last_name is None ==> e.last_name == c.last_name)
            &&& (p.department_id matches Some(v) ==> e.department_id == Some(v))
            &&& (p.department_id is None ==> e.department_id == c.department_id)
            &&& (p.designation_id matches Some(v) ==> e.designation_id == Some(v))
            &&& (p.designation_id is None ==> e.designation_id == c.designation_id)
            &&& (p.employment_type matches Some(v) ==> e.employment_type == Some(v))
            &&& (p.employment_type is None ==> e.employment_type == c.employment_type)
            &&& (p.status matches Some(v) ==> e.status == v)
            &&& (p.status is None ==> e.status == c.status)
            &&& (p.user_id matches Some(v) ==> e.user_id == Some(v))
            &&& (p.user_id is None ==> e.user_id == c.user_id)
            &&& e.id == c.id
            &&& e.tenant_id == c.tenant_id
            &&& e.employee_code == c.employee_code
            &&& e.date_of_joining == c.date_of_joining
            &&& e.reporting_manager_id == c.reporting_manager_id
}

/// An update replaces exactly the columns the patch gives: a given status
/// (or name, department, designation, employment type, user) is the row's
/// new value, an absent one leaves the stored value, and nothing else
/// changes.
pub proof fn law_update_replaces_given_fields(c: EmployeeRow, p: EmployeePatch)
    ensures
        p.first_name matches Some(v) ==> patched(c, p).first_name == v,
        p.first_name is None ==> patched(c, p).first_name == c.first_name,
        p.last_name matches Some(v) ==> patched(c, p).last_name == v,
        p.last_name is None ==> patched(c, p).last_name == c.last_name,
        p.department_id matches Some(v) ==> patched(c, p).department_id == Some(v),
        p.department_id is None ==> patched(c, p).department_id == c.department_id,
        p.designation_id matches Some(v) ==> patched(c, p).designation_id == Some(v),
        p.designation_id is None ==> patched(c, p).designation_id == c.designation_id,
        p.employment_type matches Some(v) ==> patched(c, p).employment_type == Some(v),
        p.employment_type is None ==> patched(c, p).employment_type == c.employment_type,
        p.status matches Some(v) ==> patched(c, p).status == v,
        p.status is None ==> patched(c, p).status == c.status,
        p.user_id matches Some(v) ==> patched(c, p).user_id == Some(v),
        p.user_id is None ==> patched(c, p).user_id == c.user_id,
        patched(c, p).id == c.id,
        patched(c, p).tenant_id == c.tenant_id,
        patched(c, p).employee_code == c.employee_code,
        patched(c, p).date_of_joining == c.date_of_joining,
        patched(c, p).reporting_manager_id == c.reporting_manager_id,
        update_applied(c, p, patched(c, p)),
{
}

/// Patching again with the same patch changes nothing more.
pub proof fn law_update_idempotent(c: EmployeeRow, p: EmployeePatch)
    ensures
        patched(patched(c, p), p) == patched(c, p),
{
}

/// Updates a stored employee (`current`, `None` when not found): absent
/// fields are left as they are.
pub fn update(employee_id: u128, current: Option<EmployeeRow>, patch: EmployeePatch) -> (r: Result<
    EmployeeRow,
    KabiPayError,
>)
    ensures
        current is None ==> fails_as(r, ErrorSpec::NotFound("employee"@, uuid_text(employee_id))),
        current matches Some(c) ==> r == Ok::<EmployeeRow, KabiPayError>(patched(c, patch)),
        current matches Some(c) ==> (r matches Ok(e) && update_applied(c, patch, e)),
{
    let mut e = match current {
        Some(c) => c,
        None => {
            return Err(not_found("employee", uuid_to_string(employee_id)));
        },
    };
    if let Some(v) = patch.first_name {
        e.first_name = v;
    }
    if let Some(v) = patch.last_name {
        e.last_name = v;
    }
    if let Some(v) = patch.department_id {
        e.department_id = Some(v);
    }
    if let Some(v) = patch.designation_id {
        e.designation_id = Some(v);
    }
    if let Some(v) = patch.employment_type {
        e.employment_type = Some(v);
    }
    if let Some(v) = patch.status {
        e.status = v;
    }
    if let Some(v) = patch.user_id {
        e.user_id = Some(v);
    }
    Ok(e)
}

/// A looked-up employee is shown only when the caller's scope reaches it
/// (never an error, so no row outside the scope is revealed).
pub fn visible_employee(
    found: Option<EmployeeRow>,
    scope: ScopeType,
    viewer: Option<ClientViewerEmployee>,
) -> (r: Option<EmployeeRow>)
    ensures
        match found {
            Some(m) => if in_scope(scope, viewer, m.scope_ref()) {
                r == Some(m)
            } else {
                r is None
            },
            None => r is None,
        },
{
    match found {
        Some(m) => {
            let e = m.to_scope_ref();
            if is_employee_in_scope(scope, viewer, &e) {
                Some(m)
            } else {
                None
            }
        },
        None => None,
    }
}

/// A row of the org chart.
#[derive(Clone, Debug)]
pub struct OrgChartRow {
    pub employee_id: u128,
    pub employee_code: String,
    pub full_name: String,
    pub reporting_manager_id: Option<u128>,
    pub department_name: Option<String>,
    pub designation_title: Option<String>,
}

/// The value of the first entry of `m` with key `k`.
pub open spec fn lookup(m: Seq<(u128, String)>, k: u128) -> Option<String>
    decreases m.len(),
{
    if m.len() == 0 {
        None
    } else if m[0].0 == k {
        Some(m[0].1)
    } else {
        lookup(m.drop_first(), k)
    }
}

fn lookup_exec(m: &Vec<(u128, String)>, k: u128) -> (r: Option<String>)
    ensures
        opt_view(r) == opt_view(lookup(m@, k)),
{
    let mut i: usize = 0;
    assert(m@.skip(0) =~= m@);
    while i < m.len()
        invariant
            i <= m.len(),
            lookup(m@, k) == lookup(m@.skip(i as int), k),
        decreases m.len() - i,
    {
        assert(m@.skip(i as int).drop_first() == m@.skip((i + 1) as int));
        if m[i].0 == k {
            return Some(owned(m[i].1.as_str()));
        }
        i = i + 1;
    }
    None
}

/// The name found for an optional id.
pub open spec fn name_for(m: Seq<(u128, String)>, id: Option<u128>) -> Option<Seq<char>> {
    match id {
        Some(i) => opt_view(lookup(m, i)),
        None => None,
    }
}

/// One org chart row per employee, in order: display name, manager, and the
/// names of the department and designation found in the lookups.
pub fn org_chart_rows(
    employees: &Vec<EmployeeRow>,
    department_names: &Vec<(u128, String)>,
    designation_titles: &Vec<(u128, String)>,
) -> (r: Vec<OrgChartRow>)
    ensures
        r@.len() == employees@.len(),
        forall|i: int|
            0 <= i < r@.len() ==> {
                let e = employees@[i];
                let row = #[trigger] r@[i];
                &&& row.employee_id == e.id
                &&& row.employee_code@ == e.employee_code@
                &&& row.full_name@ == full_name_text(e.first_name@, e.last_name@)
                &&& row.reporting_manager_id == e.reporting_manager_id
                &&& opt_view(row.department_name) == name_for(department_names@, e.department_id)
                &&& opt_view(row.designation_title) == name_for(designation_titles@, e.designation_id)
            },
{
    let mut r: Vec<OrgChartRow> = Vec::new();
    let mut i: usize = 0;
    while i < employees.len()
        invariant
            i <= employees.len(),
            r@.len() == i,
            forall|j: int|
                0 <= j < i ==> {
                    let e = employees@[j];
                    let row = #[trigger] r@[j];
                    &&& row.employee_id == e.id
                    &&& row.employee_code@ == e.employee_code@
                    &&& row.full_name@ == full_name_text(e.first_name@, e.last_name@)
                    &&& row.reporting_manager_id == e.reporting_manager_id
                    &&& opt_view(row.department_name) == name_for(department_names@, e.department_id)
                    &&& opt_view(row.designation_title) == name_for(
                        designation_titles@,
                        e.designation_id,
                    )
                },
        decreases employees.len() - i,
    {
        let e = &employees[i];
        let department_name = match e.department_id {
            Some(d) => lookup_exec(department_names, d),
            None => None,
        };
        let designation_title = match e.designation_id {
            Some(d) => lookup_exec(designation_titles, d),
            None => None,
        };
        r.push(
            OrgChartRow {
                employee_id: e.id,
                employee_code: owned(e.employee_code.as_str()),
                full_name: full_name(e.first_name.as_str(), e.last_name.as_str()),
                reporting_manager_id: e.reporting_manager_id,
                department_name,
                designation_title,
            },
        );
        i = i + 1;
    }
    r
}

/// The distinct ids present, in increasing order (`sort_unstable` then
/// `dedup` of the present ones).
pub fn distinct_sorted_ids(ids: &Vec<Option<u128>>) -> (r: Vec<u128>)
    ensures
        forall|i: int, j: int| 0 <= i < j < r@.len() ==> r@[i] < r@[j],
        forall|x: u128| r@.contains(x) <==> ids@.contains(Some(x)),
{
    let mut r: Vec<u128> = Vec::new();
    let mut i: usize = 0;
    while i < ids.len()
        invariant
            i <= ids.len(),
            forall|a: int, b: int| 0 <= a < b < r@.len() ==> r@[a] < r@[b],
            forall|x: u128| r@.contains(x) <==> ids@.take(i as int).contains(Some(x)),
        decreases ids.len() - i,
    {
        assert(ids@.take((i + 1) as int) == ids@.take(i as int).push(ids@[i as int]));
        if let Some(x) = ids[i] {
            let mut k: usize = 0;
            while k < r.len() && r[k] < x
                invariant
                    k <= r.len(),
                    forall|a: int| 0 <= a < k ==> r@[a] < x,
                decreases r.len() - k,
            {
                k = k + 1;
            }
            if k < r.len() && r[k] == x {
                assert forall|y: u128| r@.contains(y) <==> ids@.take((i + 1) as int).contains(
                    Some(y),
                ) by {
                    if ids@.take(i as int).push(ids@[i as int]).contains(Some(y)) {
                        let m = choose|m: int|
                            0 <= m < i + 1 && ids@.take(i as int).push(ids@[i as int])[m] == Some(
                                y,
                            );
                        if m == i {
                            assert(r@[k as int] == y);
                        } else {
                            assert(ids@.take(i as int)[m] == Some(y));
                        }
                    }
                    if r@.contains(y) {
                        let m = choose|m: int| 0 <= m < i && ids@.take(i as int)[m] == Some(y);
                        assert(ids@.take(i as int).push(ids@[i as int])[m] == Some(y));
                    }
                }
            } else {
                let ghost old_r = r@;
                r.insert(k, x);
                assert forall|a: int, b: int| 0 <= a < b < r@.len() implies r@[a] < r@[b] by {
                    if b < k {
                        assert(r@[a] == old_r[a] && r@[b] == old_r[b]);
                    } else if b == k {
                        assert(r@[a] == old_r[a]);
                    } else if a > k {
                        assert(r@[a] == old_r[a - 1] && r@[b] == old_r[b - 1]);
                    } else if a == k {
                        assert(r@[b] == old_r[b - 1]);
                        assert(old_r[k as int] > x || old_r[k as int] == x);
                        if k < old_r.len() {
                            assert(old_r[k as int] != x);
                        }
                    } else {
                        assert(r@[a] == old_r[a] && r@[b] == old_r[b - 1]);
                    }
                }
                assert forall|y: u128| r@.contains(y) <==> ids@.take((i + 1) as int).contains(
                    Some(y),
                ) by {
                    if r@.contains(y) {
                        let m = choose|m: int| 0 <= m < r@.len() && r@[m] == y;
                        if m == k {
                            assert(ids@.take(i as int).push(ids@[i as int])[i as int] == Some(y));
                        } else {
                            let n = if m < k {
                                m
                            } else {
                                m - 1
                            };
                            assert(old_r[n] == y);
                            assert(old_r.contains(y));
                            let q = choose|q: int| 0 <= q < i && ids@.take(i as int)[q] == Some(y);
                            assert(ids@.take(i as int).push(ids@[i as int])[q] == Some(y));
                        }
                    }
                    if ids@.take(i as int).push(ids@[i as int]).contains(Some(y)) {
                        let q = choose|q: int|
                            0 <= q < i + 1 && ids@.take(i as int).push(ids@[i as int])[q] == Some(
                                y,
                            );
                        if q == i {
                            assert(r@[k as int] == y);
                        } else {
                            assert(ids@.take(i as int)[q] == Some(y));
                            assert(old_r.contains(y));
                            let n = choose|n: int| 0 <= n < old_r.len() && old_r[n] == y;
                            if n < k {
                                assert(r@[n] == y);
                            } else {
                                assert(r@[n + 1] == y);
                            }
                        }
                    }
                }
            }
        } else {
            assert forall|y: u128| r@.contains(y) <==> ids@.take((i + 1) as int).contains(Some(y)) by {
                if ids@.take(i as int).push(ids@[i as int]).contains(Some(y)) {
                    let q = choose|q: int|
                        0 <= q < i + 1 && ids@.take(i as int).push(ids@[i as int])[q] == Some(y);
                    assert(q != i);
                    assert(ids@.take(i as int)[q] == Some(y));
                }
                if r@.contains(y) {
                    let q = choose|q: int| 0 <= q < i && ids@.take(i as int)[q] == Some(y);
                    assert(ids@.take(i as int).push(ids@[i as int])[q] == Some(y));
                }
            }
        }
        i = i + 1;
    }
    assert(ids@.take(ids.len() as int) == ids@);
    r
}

// ----------------------------------------------------------------------------
// Onboarding
// ----------------------------------------------------------------------------

/// An onboarding checklist task's completion columns.
#[derive(Clone, Copy, Debug)]
pub struct TaskCompletion {
    pub is_completed: bool,
    /// When it was completed (seconds since the epoch).
    pub completed_at: Option<i64>,
}

/// Marks a task (`found` says whether it exists) done or not done at
/// `now`: a completed task records the time, an open one none.
pub fn set_task_completed(task_id: u128, found: bool, is_completed: bool, now: i64) -> (r: Result<
    TaskCompletion,
    KabiPayError,
>)
    ensures
        !found ==> fails_as(r, ErrorSpec::NotFound("onboarding_checklist"@, uuid_text(task_id))),
        found ==> (r matches Ok(t) && t.is_completed == is_completed && t.completed_at == (if is_completed {
            Some(now)
        } else {
            None
        })),
{
    if !found {
        return Err(not_found("onboarding_checklist", uuid_to_string(task_id)));
    }
    Ok(
        TaskCompletion {
            is_completed,
            completed_at: if is_completed {
                Some(now)
            } else {
                None
            },
        },
    )
}

// ----------------------------------------------------------------------------
// Document uploads
// ----------------------------------------------------------------------------

/// An `employee_document` row.
#[derive(Clone, Debug)]
pub struct EmployeeDocumentRow {
    pub id: u128,
    pub tenant_id: u128,
    pub employee_id: u128,
    pub document_type_id: u128,
    pub file_storage_id: Option<u128>,
    pub status: String,
}

/// An employee document upload to local disk: the size is checked, the
/// file goes under `{tenant}/{file}`, and a `PENDING` document row points
/// at it.
pub fn plan_document_upload(
    tenant_id: u128,
    employee_id: u128,
    document_type_id: u128,
    uploader_user_id: Option<u128>,
    original_filename: String,
    mime_type: Option<String>,
    size: usize,
    file_id: u128,
    doc_id: u128,
) -> (r: Result<(StoredFile, EmployeeDocumentRow), KabiPayError>)
    ensures
        size == 0 ==> is_validation(r, "upload file content must not be empty"@),
        size > max_upload_bytes() ==> is_validation(r, "file exceeds max size of 6291456 bytes"@),
        r is Ok <==> 0 < size <= max_upload_bytes(),
        r matches Ok(x) ==> {
            &&& x.0.id == file_id && x.0.tenant_id == tenant_id
            &&& x.0.provider@ == "LOCAL"@ && x.0.bucket is None
            &&& x.0.storage_path@ == tenant_file_path(tenant_id, file_id)
            &&& x.0.original_filename == Some(original_filename)
            &&& x.0.mime_type == mime_type
            &&& x.0.file_size_bytes == Some(size as i64)
            &&& !x.0.is_public && x.0.uploaded_by == uploader_user_id
            &&& x.1.id == doc_id && x.1.tenant_id == tenant_id && x.1.employee_id == employee_id
            &&& x.1.document_type_id == document_type_id
            &&& x.1.file_storage_id == Some(file_id)
            &&& x.1.status@ == "PENDING"@
        },
{
    check_upload_size(size)?;
    let mut path = uuid_to_string(tenant_id);
    push_str(&mut path, "/");
    push_str(&mut path, uuid_to_string(file_id).as_str());
    let f = crate::storage::stored_file_row(
        file_id,
        tenant_id,
        uploader_user_id,
        original_filename,
        mime_type,
        BlobTarget { bucket: None, storage_path: path },
        size,
    );
    let d = EmployeeDocumentRow {
        id: doc_id,
        tenant_id,
        employee_id,
        document_type_id,
        file_storage_id: Some(file_id),
        status: owned("PENDING"),
    };
    Ok((f, d))
}

} // verus!
