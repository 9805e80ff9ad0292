//! The reusable access-control decisions: what a user's relationship to a
//! group (or to the system) allows. Each takes the membership or account the
//! caller looked up and answers with the same error the API returns.
use vstd::prelude::*;
use crate::errors::ApiError;
use crate::group::{GroupMember, Role};
use crate::ids::Oid;
use crate::user::{GlobalRole, UserResponse};

verus! {

/// Whether `caller` is a known account holding the System Admin role.
pub open spec fn is_system_admin(caller: Option<UserResponse>) -> bool {
    match caller {
        Some(u) => u.global_role matches Some(GlobalRole::Admin),
        None => false,
    }
}

/// The access-control decisions, grouped as one service.
pub struct RbacService;

impl RbacService {
    /// Membership is required. Not being a member is `Forbidden`, never
    /// `NotFound`, so a non-member learns nothing about whether the group
    /// exists.
    pub fn require_member(found: Option<GroupMember>) -> (r: Result<GroupMember, ApiError>)
        ensures
            match found {
                Some(m) => r == Ok::<GroupMember, ApiError>(m),
                None => r matches Err(ApiError::Forbidden),
            },
    {
        match found {
            Some(m) => Ok(m),
            None => Err(ApiError::Forbidden),
        }
    }

    /// A Group Admin membership is required; anything less is `Forbidden`.
    pub fn require_group_admin(found: Option<GroupMember>) -> (r: Result<GroupMember, ApiError>)
        ensures
            r is Ok <==> (found matches Some(m) && m.role == Role::GroupAdmin),
            r matches Ok(m) ==> found == Some(m),
            r matches Err(e) ==> e is Forbidden,
    {
        let member = Self::require_member(found)?;
        if member.role != Role::GroupAdmin {
            return Err(ApiError::Forbidden);
        }
        Ok(member)
    }

    /// The caller must hold the System Admin global role. An unknown caller
    /// is `Forbidden` too, so a stale or forged token cannot probe which
    /// accounts exist.
    pub fn require_system_admin(caller: &Option<UserResponse>) -> (r: Result<(), ApiError>)
        ensures
            r is Ok <==> is_system_admin(*caller),
            r matches Err(e) ==> e is Forbidden,
    {
        let role: Option<GlobalRole> = match caller {
            None => None,
            Some(u) => u.global_role,
        };
        let admin = match role {
            Some(GlobalRole::Admin) => true,
            None => false,
        };
        if admin {
            Ok(())
        } else {
            Err(ApiError::Forbidden)
        }
    }

    /// A Contributor may act only on what they created; a Group Admin on
    /// anything in the group.
    pub fn require_owner_or_group_admin(member: &GroupMember, resource_owner_id: Oid) -> (r: Result<
        (),
        ApiError,
    >)
        ensures
            r is Ok <==> (member.role == Role::GroupAdmin || member.user_id == resource_owner_id),
            r matches Err(e) ==> e is Forbidden,
    {
        if member.role == Role::GroupAdmin || member.user_id == resource_owner_id {
            Ok(())
        } else {
            Err(ApiError::Forbidden)
        }
    }
}

} // verus!
