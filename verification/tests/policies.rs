use casbin::{CoreApi, DefaultModel, Enforcer, MemoryAdapter, MgmtApi};
use notes::entities::auth::Claims;
use notes::policies::{default_policies, policies_to_add, seed_plan};
use notes::routes::access::{access_request, casbin_decision};

const MODEL: &str = "
[request_definition]
r = sub, obj, act

[policy_definition]
p = sub, obj, act

[policy_effect]
e = some(where (p.eft == allow))

[matchers]
m = r.sub == p.sub && r.obj == p.obj && r.act == p.act
";

fn enforcer() -> Enforcer {
    tokio::runtime::Runtime::new().unwrap().block_on(async {
        let model = DefaultModel::from_str(MODEL).await.unwrap();
        Enforcer::new(model, MemoryAdapter::default()).await.unwrap()
    })
}

fn check(e: &Enforcer, claims: &Claims, path: &str, method: &str) -> Result<(), u16> {
    let r = access_request(claims, path, method);
    casbin_decision(e.enforce((r.subject.as_str(), r.object.as_str(), r.action.as_str())))
}

fn claims(role: &str) -> Claims {
    Claims { sub: 1, exp: 0, iat: 0, iss: String::new(), role: role.to_string() }
}

#[test]
fn default_policy_lets_users_read_notes() {
    let p = default_policies();
    assert_eq!(p.len(), 1);
    assert_eq!((p[0].subject.as_str(), p[0].object.as_str(), p[0].action.as_str()), ("user", "/notes", "GET"));
}

#[test]
fn only_missing_policies_are_added() {
    assert_eq!(policies_to_add(&vec![]), Vec::<usize>::new());
    assert_eq!(policies_to_add(&vec![true, false, true, false, false]), vec![1, 3, 4]);
    assert_eq!(policies_to_add(&vec![true, true]), Vec::<usize>::new());
}

#[test]
fn seeding_an_empty_enforcer_then_checking_access() {
    let mut e = enforcer();
    let policies = default_policies();
    let plan = seed_plan(&e, &policies);
    assert_eq!(plan, vec![0]);
    tokio::runtime::Runtime::new().unwrap().block_on(async {
        for i in plan {
            let p = &policies[i];
            e.add_policy(vec![p.subject.clone(), p.object.clone(), p.action.clone()]).await.unwrap();
        }
    });
    assert_eq!(seed_plan(&e, &policies), Vec::<usize>::new());
    assert_eq!(check(&e, &claims("user"), "/notes", "GET"), Ok(()));
    assert_eq!(check(&e, &claims("user"), "/notes", "POST"), Err(403));
    assert_eq!(check(&e, &claims("guest"), "/notes", "GET"), Err(403));
    assert!(e.enforce(("user", "/notes", "GET")).unwrap());
}
