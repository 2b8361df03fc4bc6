use std::any::TypeId;
use swirl::{Registry, RegistryEntry};

struct EnvA;
struct EnvB;

fn entry(env: TypeId, job_type: &str, v: u32) -> RegistryEntry<u32> {
    RegistryEntry { env_type: env, job_type: job_type.to_string(), vtable: v }
}

#[test]
fn finds_jobs_of_its_environment_only() {
    let a = TypeId::of::<EnvA>();
    let b = TypeId::of::<EnvB>();
    let reg = Registry::load(a, vec![entry(a, "resize", 1), entry(b, "send_mail", 2), entry(a, "index", 3)]);
    assert_eq!(reg.get("resize"), Some(&1));
    assert_eq!(reg.get("index"), Some(&3));
    assert_eq!(reg.get("send_mail"), None);
    assert_eq!(reg.get("unknown"), None);
}

#[test]
fn later_registration_wins() {
    let a = TypeId::of::<EnvA>();
    let b = TypeId::of::<EnvB>();
    let reg = Registry::load(a, vec![entry(a, "resize", 1), entry(a, "resize", 7), entry(b, "resize", 9)]);
    assert_eq!(reg.get("resize"), Some(&7));
    let empty: Registry<u32> = Registry::load(a, Vec::new());
    assert_eq!(empty.get("resize"), None);
}
