//! Resolvers of the employee service.
use vstd::prelude::*;

use crate::calendar::Ymd;
use crate::employee::{EmployeePatch, NewEmployee};
use crate::error::{fails_as, is_validation, not_found, validation, ErrorSpec, KabiPayError};
use crate::ids::{parse_id_arg, parse_opt_id_arg, uuid_parse, uuid_text, uuid_to_string};
use crate::text::owned;

verus! {

/// The input of `createEmployee`, ids as given.
#[derive(Clone, Debug)]
pub struct CreateEmployeeInput {
    pub employee_code: String,
    pub first_name: String,
    pub last_name: String,
    pub date_of_joining: Ymd,
    pub department_id: Option<String>,
    pub designation_id: Option<String>,
    /// Must be another active employee of the tenant.
    pub reporting_manager_id: Option<String>,
    pub employment_type: Option<String>,
    pub status: Option<String>,
    pub user_id: Option<String>,
}

/// The input of `updateEmployee`, ids as given.
#[derive(Clone, Debug)]
pub struct UpdateEmployeeInput {
    pub id: String,
    pub first_name: Option<String>,
    pub last_name: Option<String>,
    pub department_id: Option<String>,
    pub designation_id: Option<String>,
    pub employment_type: Option<String>,
    pub status: Option<String>,
    pub user_id: Option<String>,
}

/// The status of a new employee: the given one unless absent or empty,
/// else `ACTIVE`.
pub open spec fn new_employee_status(s: Option<String>) -> Seq<char> {
    match s {
        Some(x) => if x@.len() > 0 {
            x@
        } else {
            "ACTIVE"@
        },
        None => "ACTIVE"@,
    }
}

/// What an optional id argument reads as, `None` when it does not read.
pub open spec fn opt_id_read(raw: Option<String>) -> Option<Option<u128>> {
    match raw {
        None => Some(None),
        Some(s) => match uuid_parse(s@) {
            Ok(v) => Some(Some(v)),
            Err(_) => None,
        },
    }
}

/// The resolvers of the employee service's mutations.
pub struct MutationRoot;

impl MutationRoot {
    /// `createEmployee`: reads the department, designation, reporting
    /// manager and user ids (in that order) and defaults the status to
    /// `ACTIVE`.
    pub fn create_employee(input: CreateEmployeeInput) -> (r: Result<NewEmployee, KabiPayError>)
        ensures
            r is Ok <==> (opt_id_read(input.department_id) is Some && opt_id_read(
                input.designation_id,
            ) is Some && opt_id_read(input.reporting_manager_id) is Some && opt_id_read(
                input.user_id,
            ) is Some),
            input.department_id matches Some(s) ==> (uuid_parse(s@) matches Err(e)
                ==> is_validation(r, "invalid departmentId: "@ + e)),
            r matches Ok(n) ==> {
                &&& n.employee_code == input.employee_code
                &&& n.first_name == input.first_name
                &&& n.last_name == input.last_name
                &&& n.date_of_joining == input.date_of_joining
                &&& Some(n.department_id) == opt_id_read(input.department_id)
                &&& Some(n.designation_id) == opt_id_read(input.designation_id)
                &&& Some(n.reporting_manager_id) == opt_id_read(input.reporting_manager_id)
                &&& Some(n.user_id) == opt_id_read(input.user_id)
                &&& n.employment_type == input.employment_type
                &&& n.status@ == new_employee_status(input.status)
            },
    {
        let department_id = parse_opt_id_arg(&input.department_id, "invalid departmentId: ")?;
        let designation_id = parse_opt_id_arg(&input.designation_id, "invalid designationId: ")?;
        let reporting_manager_id = parse_opt_id_arg(
            &input.reporting_manager_id,
            "invalid reportingManagerId: ",
        )?;
        let user_id = parse_opt_id_arg(&input.user_id, "invalid userId: ")?;
        let status = match input.status {
            Some(s) => if s.as_str().is_empty() {
                owned("ACTIVE")
            } else {
                s
            },
            None => owned("ACTIVE"),
        };
        Ok(
            NewEmployee {
                employee_code: input.employee_code,
                first_name: input.first_name,
                last_name: input.last_name,
                date_of_joining: input.date_of_joining,
                department_id,
                designation_id,
                reporting_manager_id,
                employment_type: input.employment_type,
                status,
                user_id,
            },
        )
    }

    /// `updateEmployee`: reads the employee id, then the optional ids.
    pub fn update_employee(input: UpdateEmployeeInput) -> (r: Result<(u128, EmployeePatch), KabiPayError>)
        ensures
            uuid_parse(input.id@) matches Err(e) ==> is_validation(r, "invalid id: "@ + e),
            r is Ok <==> (uuid_parse(input.id@) is Ok && opt_id_read(input.department_id) is Some
                && opt_id_read(input.designation_id) is Some && opt_id_read(input.user_id) is Some),
            r matches Ok(x) ==> {
                &&& (uuid_parse(input.id@) matches Ok(v) && x.0 == v)
                &&& x.1.first_name == input.first_name
                &&& x.1.last_name == input.last_name
                &&& Some(x.1.department_id) == opt_id_read(input.department_id)
                &&& Some(x.1.designation_id) == opt_id_read(input.designation_id)
                &&& x.1.employment_type == input.employment_type
                &&& x.1.status == input.status
                &&& Some(x.1.user_id) == opt_id_read(input.user_id)
            },
    {
        let eid = parse_id_arg(input.id.as_str(), "invalid id: ")?;
        let department_id = parse_opt_id_arg(&input.department_id, "invalid departmentId: ")?;
        let designation_id = parse_opt_id_arg(&input.designation_id, "invalid designationId: ")?;
        let user_id = parse_opt_id_arg(&input.user_id, "invalid userId: ")?;
        Ok(
            (
                eid,
                EmployeePatch {
                    first_name: input.first_name,
                    last_name: input.last_name,
                    department_id,
                    designation_id,
                    employment_type: input.employment_type,
                    status: input.status,
                    user_id,
                },
            ),
        )
    }
}

/// The resolvers of the employee service's queries.
pub struct QueryRoot;

impl QueryRoot {
    /// The id of `employee(id:)` (and of the federation lookup).
    pub fn employee_id(raw: &str) -> (r: Result<u128, KabiPayError>)
        ensures
            uuid_parse(raw@) matches Ok(v) ==> r == Ok::<u128, KabiPayError>(v),
            uuid_parse(raw@) matches Err(e) ==> is_validation(r, "invalid employee id: "@ + e),
    {
        parse_id_arg(raw, "invalid employee id: ")
    }

    /// `employeeDocumentSignedReadUrl`, before the caller's scope is checked:
    /// the document (`None` when not found; else its owner and stored file)
    /// must have a stored file. Gives the owner, the file and the lifetime of
    /// the link.
    pub fn signed_read_target(
        document_id: u128,
        document: Option<(u128, Option<u128>)>,
        ttl_seconds: i32,
    ) -> (r: Result<(u128, u128, i64), KabiPayError>)
        ensures
            document is None ==> fails_as(
                r,
                ErrorSpec::NotFound("employeeDocument"@, uuid_text(document_id)),
            ),
            document matches Some(d) ==> (d.1 is None ==> is_validation(
                r,
                "document has no file yet"@,
            )),
            document matches Some(d) ==> (d.1 matches Some(f) ==> (r matches Ok(x) && x.0 == d.0
                && x.1 == f && x.2 == (if ttl_seconds < 60 {
                60
            } else if ttl_seconds > 86400 {
                86400
            } else {
                ttl_seconds as int
            }))),
    {
        let (owner, file) = match document {
            None => {
                return Err(not_found("employeeDocument", uuid_to_string(document_id)));
            },
            Some(d) => d,
        };
        let f = match file {
            None => {
                return Err(validation("document has no file yet"));
            },
            Some(f) => f,
        };
        Ok((owner, f, crate::token::read_url_ttl(ttl_seconds)))
    }
}

} // verus!
