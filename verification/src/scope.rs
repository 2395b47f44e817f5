//! Data scopes: which employees, and which employees' requests, a viewer may
//! see, and the page sizes of list queries.
use vstd::prelude::*;

verus! {

/// How far a caller's view of employee data reaches.
#[derive(Clone, Copy, Debug, PartialEq, Eq, Structural)]
pub enum ScopeType {
    /// The whole tenant.
    All,
    /// The viewer's own records.
    Self_,
    /// The viewer and their direct reports.
    Team,
    /// The viewer's department (only the viewer without a department).
    Department,
}

/// The employee linked to the caller.
#[derive(Clone, Copy, Debug)]
pub struct ClientViewerEmployee {
    pub employee_id: u128,
    pub department_id: Option<u128>,
}

/// What scoping reads of an employee row (a live, non-deleted one).
#[derive(Clone, Copy, Debug)]
pub struct EmployeeRef {
    pub id: u128,
    pub reporting_manager_id: Option<u128>,
    pub department_id: Option<u128>,
}

/// Whether `e` is visible under `scope` to `viewer`; outside `All`, a caller
/// without a linked employee sees nothing.
pub open spec fn in_scope(scope: ScopeType, viewer: Option<ClientViewerEmployee>, e: EmployeeRef) -> bool {
    match scope {
        ScopeType::All => true,
        ScopeType::Self_ => viewer matches Some(v) && e.id == v.employee_id,
        ScopeType::Team => viewer matches Some(v) && (e.id == v.employee_id || e.reporting_manager_id
            == Some(v.employee_id)),
        ScopeType::Department => viewer matches Some(v) && (e.id == v.employee_id || (
        v.department_id matches Some(d) && e.department_id == Some(d))),
    }
}

/// Whether a fetched employee is visible to the caller (the check behind
/// `employee(id:)`).
pub fn is_employee_in_scope(
    scope: ScopeType,
    viewer: Option<ClientViewerEmployee>,
    target: &EmployeeRef,
) -> (b: bool)
    ensures
        b == in_scope(scope, viewer, *target),
{
    match scope {
        ScopeType::All => true,
        ScopeType::Self_ => match viewer {
            Some(v) => target.id == v.employee_id,
            None => false,
        },
        ScopeType::Team => match viewer {
            Some(v) => target.id == v.employee_id || target.reporting_manager_id == Some(
                v.employee_id,
            ),
            None => false,
        },
        ScopeType::Department => match viewer {
            Some(v) => {
                if target.id == v.employee_id {
                    true
                } else {
                    match v.department_id {
                        Some(d) => target.department_id == Some(d),
                        None => false,
                    }
                }
            },
            None => false,
        },
    }
}

/// `limit.clamp(1, max)`.
pub fn clamp_limit(limit: u64, max: u64) -> (r: u64)
    requires
        max >= 1,
    ensures
        r == if limit < 1 {
            1
        } else if limit > max {
            max
        } else {
            limit
        },
{
    if limit < 1 {
        1
    } else if limit > max {
        max
    } else {
        limit
    }
}

/// The rows of `rows` visible in the scope, in order.
pub open spec fn scoped(scope: ScopeType, viewer: Option<ClientViewerEmployee>, rows: Seq<EmployeeRef>) -> Seq<
    EmployeeRef,
> {
    rows.filter(|e: EmployeeRef| in_scope(scope, viewer, e))
}

/// The employee list: the visible rows, at most `limit` of them (clamped to
/// `1..=100`).
pub fn list_employees(
    scope: ScopeType,
    viewer: Option<ClientViewerEmployee>,
    rows: &Vec<EmployeeRef>,
    limit: u64,
) -> (r: Vec<EmployeeRef>)
    ensures
        ({
            let n = if limit < 1 {
                1
            } else if limit > 100 {
                100
            } else {
                limit as int
            };
            let all = scoped(scope, viewer, rows@);
            r@ == if all.len() <= n {
                all
            } else {
                all.take(n)
            }
        }),
{
    let n = clamp_limit(limit, 100);
    let mut r: Vec<EmployeeRef> = Vec::new();
    let mut i: usize = 0;
    while i < rows.len()
        invariant
            i <= rows.len(),
            1 <= n <= 100,
            r@.len() <= n,
            r@ == (if scoped(scope, viewer, rows@.take(i as int)).len() <= n {
                scoped(scope, viewer, rows@.take(i as int))
            } else {
                scoped(scope, viewer, rows@.take(i as int)).take(n as int)
            }),
        decreases rows.len() - i,
    {
        let e = rows[i];
        let ghost pre = rows@.take(i as int);
        assert(rows@.take((i + 1) as int) == pre.push(e));
        assert(pre.push(e).drop_last() == pre);
        assert(scoped(scope, viewer, pre.push(e)) == if in_scope(scope, viewer, e) {
            scoped(scope, viewer, pre).push(e)
        } else {
            scoped(scope, viewer, pre)
        }) by {
            reveal_with_fuel(Seq::filter, 1);
        }
        if is_employee_in_scope(scope, viewer, &e) {
            if r.len() < n as usize {
                r.push(e);
            } else {
                let ghost s = scoped(scope, viewer, pre);
                assert(s.push(e).take(n as int) == s.take(n as int));
            }
        }
        i = i + 1;
    }
    assert(rows@.take(rows.len() as int) == rows@);
    r
}

/// A listed employee passes the point lookup's scope check: the list and
/// `employee(id:)` agree.
pub proof fn law_listed_employee_in_scope(
    scope: ScopeType,
    viewer: Option<ClientViewerEmployee>,
    rows: Seq<EmployeeRef>,
    k: int,
)
    requires
        0 <= k < scoped(scope, viewer, rows).len(),
    ensures
        in_scope(scope, viewer, scoped(scope, viewer, rows)[k]),
{
    let f = |e: EmployeeRef| in_scope(scope, viewer, e);
    rows.filter_lemma(f);
}

/// Every visible row is listed: a row of `rows` in the scope appears in
/// the scoped list.
pub proof fn law_visible_employee_is_listed(
    scope: ScopeType,
    viewer: Option<ClientViewerEmployee>,
    rows: Seq<EmployeeRef>,
    k: int,
)
    requires
        0 <= k < rows.len(),
        in_scope(scope, viewer, rows[k]),
    ensures
        scoped(scope, viewer, rows).contains(rows[k]),
{
    let f = |e: EmployeeRef| in_scope(scope, viewer, e);
    rows.lemma_filter_contains(f, k);
}

/// Who sees whom: `ALL` sees everyone; without a linked employee record
/// nothing else is visible; otherwise the viewer always sees themselves,
/// `SELF` sees no one else, `TEAM` also sees their direct reports, and
/// `DEPARTMENT` everyone of their department.
pub proof fn law_scope_visibility(scope: ScopeType, viewer: Option<ClientViewerEmployee>, e: EmployeeRef)
    ensures
        scope == ScopeType::All ==> in_scope(scope, viewer, e),
        scope != ScopeType::All && viewer is None ==> !in_scope(scope, viewer, e),
        viewer matches Some(v) && e.id == v.employee_id ==> in_scope(scope, viewer, e),
        scope == ScopeType::Self_ && (viewer matches Some(v) && e.id != v.employee_id) ==> !in_scope(
            scope,
            viewer,
            e,
        ),
        scope == ScopeType::Team && (viewer matches Some(v) && e.reporting_manager_id == Some(
            v.employee_id,
        )) ==> in_scope(scope, viewer, e),
        scope == ScopeType::Team && (viewer matches Some(v) && e.id != v.employee_id
            && e.reporting_manager_id != Some(v.employee_id)) ==> !in_scope(scope, viewer, e),
        scope == ScopeType::Department && (viewer matches Some(v) && v.department_id is Some
            && e.department_id == v.department_id) ==> in_scope(scope, viewer, e),
        scope == ScopeType::Department && (viewer matches Some(v) && e.id != v.employee_id && (
        v.department_id is None || e.department_id != v.department_id)) ==> !in_scope(
            scope,
            viewer,
            e,
        ),
{
}

/// The viewer and everyone who reports to them: the direct reports among
/// `employees` in order, then the viewer.
pub fn team_member_employee_ids(manager_employee_id: u128, employees: &Vec<EmployeeRef>) -> (r: Vec<u128>)
    ensures
        r@.len() >= 1,
        r@.last() == manager_employee_id,
        forall|x: u128| #[trigger] r@.contains(x) <==> (x == manager_employee_id || exists|i: int|
            0 <= i < employees@.len() && employees@[i].id == x && employees@[i].reporting_manager_id
                == Some(manager_employee_id)),
{
    let mut r: Vec<u128> = Vec::new();
    let mut i: usize = 0;
    while i < employees.len()
        invariant
            i <= employees.len(),
            forall|x: u128| #[trigger] r@.contains(x) <==> exists|j: int|
                0 <= j < i && employees@[j].id == x && employees@[j].reporting_manager_id == Some(
                    manager_employee_id,
                ),
        decreases employees.len() - i,
    {
        let e = employees[i];
        if e.reporting_manager_id == Some(manager_employee_id) {
            let ghost old_r = r@;
            r.push(e.id);
            assert forall|x: u128| #[trigger] r@.contains(x) <==> exists|j: int|
                0 <= j < i + 1 && employees@[j].id == x && employees@[j].reporting_manager_id
                    == Some(manager_employee_id) by {
                if r@.contains(x) {
                    let k = choose|k: int| 0 <= k < r@.len() && r@[k] == x;
                    if k < old_r.len() {
                        assert(old_r.contains(x));
                    } else {
                        assert(employees@[i as int].id == x);
                    }
                }
                if exists|j: int|
                    0 <= j < i + 1 && employees@[j].id == x && employees@[j].reporting_manager_id
                        == Some(manager_employee_id) {
                    let j = choose|j: int|
                        0 <= j < i + 1 && employees@[j].id == x
                            && employees@[j].reporting_manager_id == Some(manager_employee_id);
                    if j < i {
                        assert(old_r.contains(x));
                        let k = choose|k: int| 0 <= k < old_r.len() && old_r[k] == x;
                        assert(r@[k] == x);
                    } else {
                        assert(r@[old_r.len() as int] == x);
                    }
                }
            }
        }
        i = i + 1;
    }
    let ghost old_r = r@;
    r.push(manager_employee_id);
    assert forall|x: u128| #[trigger] r@.contains(x) <==> (x == manager_employee_id || exists|i: int|
        0 <= i < employees@.len() && employees@[i].id == x && employees@[i].reporting_manager_id
            == Some(manager_employee_id)) by {
        if r@.contains(x) {
            let k = choose|k: int| 0 <= k < r@.len() && r@[k] == x;
            if k < old_r.len() {
                assert(old_r.contains(x));
            }
        }
        if x == manager_employee_id {
            assert(r@[old_r.len() as int] == x);
        } else if old_r.contains(x) {
            let k = choose|k: int| 0 <= k < old_r.len() && old_r[k] == x;
            assert(r@[k] == x);
        }
    }
    r
}

/// Everyone in the viewer's department (from `employees`, in order), or only
/// the viewer when they have no department.
pub fn department_peer_employee_ids(viewer: ClientViewerEmployee, employees: &Vec<EmployeeRef>) -> (r:
    Vec<u128>)
    ensures
        viewer.department_id is None ==> r@ == seq![viewer.employee_id],
        viewer.department_id matches Some(d) ==> forall|x: u128| #[trigger] r@.contains(x) <==> exists|
            i: int,
        | 0 <= i < employees@.len() && employees@[i].id == x && employees@[i].department_id == Some(d),
{
    let d = match viewer.department_id {
        None => {
            let mut r: Vec<u128> = Vec::new();
            r.push(viewer.employee_id);
            return r;
        },
        Some(d) => d,
    };
    let mut r: Vec<u128> = Vec::new();
    let mut i: usize = 0;
    while i < employees.len()
        invariant
            i <= employees.len(),
            forall|x: u128| #[trigger] r@.contains(x) <==> exists|j: int|
                0 <= j < i && employees@[j].id == x && employees@[j].department_id == Some(d),
        decreases employees.len() - i,
    {
        let e = employees[i];
        if e.department_id == Some(d) {
            let ghost old_r = r@;
            r.push(e.id);
            assert forall|x: u128| #[trigger] r@.contains(x) <==> exists|j: int|
                0 <= j < i + 1 && employees@[j].id == x && employees@[j].department_id == Some(d) by {
                if r@.contains(x) {
                    let k = choose|k: int| 0 <= k < r@.len() && r@[k] == x;
                    if k < old_r.len() {
                        assert(old_r.contains(x));
                    } else {
                        assert(employees@[i as int].id == x);
                    }
                }
                if exists|j: int|
                    0 <= j < i + 1 && employees@[j].id == x && employees@[j].department_id == Some(
                        d,
                    ) {
                    let j = choose|j: int|
                        0 <= j < i + 1 && employees@[j].id == x && employees@[j].department_id
                            == Some(d);
                    if j < i {
                        assert(old_r.contains(x));
                        let k = choose|k: int| 0 <= k < old_r.len() && old_r[k] == x;
                        assert(r@[k] == x);
                    } else {
                        assert(r@[old_r.len() as int] == x);
                    }
                }
            }
        }
        i = i + 1;
    }
    r
}

/// Which requesters' rows a list of requests is restricted to.
#[derive(Clone, Debug)]
pub enum RequesterFilter {
    /// No restriction.
    Everyone,
    /// Only these employees' rows (never empty).
    Employees(Vec<u128>),
    /// Nothing is visible.
    Nobody,
}

/// The restriction of the leave request list: the whole tenant for `All`;
/// the viewer's own for `Self`; the viewer's team (`team_ids`, from
/// [`team_member_employee_ids`]) or department peers (`department_ids`, from
/// [`department_peer_employee_ids`]); nothing without a viewer or with an
/// empty id list.
pub fn leave_request_filter(
    scope: ScopeType,
    viewer: Option<ClientViewerEmployee>,
    team_ids: Vec<u128>,
    department_ids: Vec<u128>,
) -> (r: RequesterFilter)
    ensures
        scope == ScopeType::All ==> r is Everyone,
        scope != ScopeType::All && viewer is None ==> r is Nobody,
        scope == ScopeType::Self_ ==> (viewer matches Some(v) ==> (r matches RequesterFilter::Employees(
            ids,
        ) && ids@ == seq![v.employee_id])),
        scope == ScopeType::Team && viewer is Some ==> (if team_ids@.len() == 0 {
            r is Nobody
        } else {
            r matches RequesterFilter::Employees(ids) && ids@ == team_ids@
        }),
        scope == ScopeType::Department && viewer is Some ==> (if department_ids@.len() == 0 {
            r is Nobody
        } else {
            r matches RequesterFilter::Employees(ids) && ids@ == department_ids@
        }),
{
    match scope {
        ScopeType::All => RequesterFilter::Everyone,
        ScopeType::Self_ => match viewer {
            None => RequesterFilter::Nobody,
            Some(v) => {
                let mut ids: Vec<u128> = Vec::new();
                ids.push(v.employee_id);
                RequesterFilter::Employees(ids)
            },
        },
        ScopeType::Team => match viewer {
            None => RequesterFilter::Nobody,
            Some(_) => if team_ids.len() == 0 {
                RequesterFilter::Nobody
            } else {
                RequesterFilter::Employees(team_ids)
            },
        },
        ScopeType::Department => match viewer {
            None => RequesterFilter::Nobody,
            Some(_) => if department_ids.len() == 0 {
                RequesterFilter::Nobody
            } else {
                RequesterFilter::Employees(department_ids)
            },
        },
    }
}

/// The scope filter handed to expense lists.
#[derive(Clone, Debug)]
pub enum EmployeeScopeFilter {
    /// Every employee of the tenant.
    All,
    /// No employee.
    Empty,
    /// Only these employees.
    EmployeeIds(Vec<u128>),
}

/// The restriction of the expense list: nothing for `Empty` or an empty id
/// list; the ids given; or no restriction.
pub fn expense_requester_filter(f: EmployeeScopeFilter) -> (r: RequesterFilter)
    ensures
        match f {
            EmployeeScopeFilter::All => r is Everyone,
            EmployeeScopeFilter::Empty => r is Nobody,
            EmployeeScopeFilter::EmployeeIds(ids) => if ids@.len() == 0 {
                r is Nobody
            } else {
                r matches RequesterFilter::Employees(x) && x@ == ids@
            },
        },
{
    match f {
        EmployeeScopeFilter::All => RequesterFilter::Everyone,
        EmployeeScopeFilter::Empty => RequesterFilter::Nobody,
        EmployeeScopeFilter::EmployeeIds(ids) => if ids.len() == 0 {
            RequesterFilter::Nobody
        } else {
            RequesterFilter::Employees(ids)
        },
    }
}


impl EmployeeScopeFilter {
    /// Whether the filter lets rows of `employee_id` through.
    pub open spec fn allows(self, employee_id: u128) -> bool {
        match self {
            EmployeeScopeFilter::All => true,
            EmployeeScopeFilter::Empty => false,
            EmployeeScopeFilter::EmployeeIds(ids) => ids@.contains(employee_id),
        }
    }

    /// Whether the filter lets rows of `employee_id` through.
    #[verifier::loop_isolation(false)]
    pub fn allows_employee(&self, employee_id: u128) -> (b: bool)
        ensures
            b == self.allows(employee_id),
    {
        match self {
            EmployeeScopeFilter::All => true,
            EmployeeScopeFilter::Empty => false,
            EmployeeScopeFilter::EmployeeIds(ids) => {
                let mut i: usize = 0;
                while i < ids.len()
                    invariant
                        i <= ids.len(),
                        forall|j: int| 0 <= j < i ==> ids@[j] != employee_id,
                    decreases ids.len() - i,
                {
                    if ids[i] == employee_id {
                        assert(ids@[i as int] == employee_id);
                        return true;
                    }
                    i = i + 1;
                }
                false
            },
        }
    }
}

} // verus!
