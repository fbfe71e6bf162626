use nx_gov::access::{Roles, UserRole};
use nx_gov::types::{ReturnError, StablePrincipal};
use nx_gov::validator::{self, SimpleValidator};
use rand::Rng;

fn generate_random_principal() -> StablePrincipal {
    let mut rng = rand::thread_rng();
    let random_bytes: [u8; 29] = rng.gen();
    StablePrincipal::from_slice(&random_bytes).unwrap()
}

const ROLES: [UserRole; 7] = [
    UserRole::Admin,
    UserRole::Proposer,
    UserRole::VoteManager,
    UserRole::Revoker,
    UserRole::Executor,
    UserRole::ForceExecutor,
    UserRole::Validator,
];

#[test]
fn access_role_test() {
    // The governance engine's roles.
    let n = 3;
    let mut roles = Roles::new();
    let mut last: Vec<StablePrincipal> = vec![StablePrincipal::anonymous(); 7];
    for _i in 0..n {
        for (k, role) in ROLES.iter().enumerate() {
            let p = generate_random_principal();
            assert!(!roles.has_role(*role, &p));
            let _res = roles.add_role(*role, p.clone());
            assert!(roles.has_role(*role, &p));
            last[k] = p;
        }
    }
    for role in ROLES.iter() {
        assert_eq!(roles.users_of_role(*role).len(), n as usize);
    }
    for (k, role) in ROLES.iter().enumerate() {
        roles.remove_role(*role, &last[k]);
        assert!(!roles.has_role(*role, &last[k]));
    }
    roles.remove_role(UserRole::Admin, &last[0]); // no effect
    for role in ROLES.iter() {
        roles.clear_users_of_role(*role);
        assert_eq!(roles.users_of_role(*role).len(), 0);
    }

    // The simple validator's roles.
    let mut v = SimpleValidator::new();
    let mut principal_admin = StablePrincipal::anonymous();
    for _i in 0..n {
        principal_admin = generate_random_principal();
        assert!(!v.has_role(validator::UserRole::Admin, &principal_admin));
        let _res = v.add_role_internal(validator::UserRole::Admin, principal_admin.clone());
        assert!(v.has_role(validator::UserRole::Admin, &principal_admin));
    }
    assert_eq!(v.users_of_role(validator::UserRole::Admin).len(), n as usize);
    v.remove_role_internal(validator::UserRole::Admin, &principal_admin);
    assert!(!v.has_role(validator::UserRole::Admin, &principal_admin));
    v.remove_role_internal(validator::UserRole::Admin, &principal_admin); // no effect
    v.clear_users_of_role_internal(validator::UserRole::Admin);
    assert_eq!(v.users_of_role(validator::UserRole::Admin).len(), 0);
}

#[test]
fn duplicate_role_is_refused() {
    let mut roles = Roles::new();
    let p = StablePrincipal::from_slice(&[1, 2, 3]).unwrap();
    assert_eq!(roles.add_role(UserRole::Executor, p.clone()), Ok(()));
    assert_eq!(roles.add_role(UserRole::Executor, p.clone()), Err(ReturnError::AlreadyExists));
    assert!(!roles.has_role(UserRole::Revoker, &p));
}

#[test]
fn remove_keeps_other_members() {
    let mut roles = Roles::new();
    let a = StablePrincipal::from_slice(&[1]).unwrap();
    let b = StablePrincipal::from_slice(&[2]).unwrap();
    let c = StablePrincipal::from_slice(&[3]).unwrap();
    roles.add_role(UserRole::Admin, a.clone()).unwrap();
    roles.add_role(UserRole::Admin, b.clone()).unwrap();
    roles.add_role(UserRole::Admin, c.clone()).unwrap();
    roles.remove_role(UserRole::Admin, &a);
    assert_eq!(roles.users_of_role(UserRole::Admin), &vec![c.clone(), b.clone()]);
}

#[test]
fn principal_length_limit() {
    assert!(StablePrincipal::from_slice(&[7u8; 29]).is_some());
    assert!(StablePrincipal::from_slice(&[7u8; 30]).is_none());
    assert_eq!(StablePrincipal::anonymous().as_slice(), &[4u8]);
    assert_ne!(StablePrincipal::from_slice(&[1, 2]).unwrap(), StablePrincipal::from_slice(&[1, 3]).unwrap());
}
