use caravela::service::organization::{OrgAffiliation, OrgConditions, OrgRecord, OrgRole, OrgType, Organization};
use caravela::service::ServiceConditions;
use caravela::{Description, ErrorCode};

struct Open;
impl ServiceConditions for Open {}
impl OrgConditions for Open {}

#[test]
fn members_are_added_once() {
    let mut record = OrgRecord::new();
    assert_eq!(record.add_member(Description::new("a", "hap")), Ok(()));
    assert_eq!(record.add_member(Description::new("a", "hap")), Err(ErrorCode::Duplicated));
    assert_eq!(record.add_member(Description::new("b", "hap")), Ok(()));
    assert_eq!(record.remove_member(Description::new("a", "hap")), Ok(()));
    assert_eq!(record.remove_member(Description::new("a", "hap")), Err(ErrorCode::NotFound));
    assert_eq!(record.add_member(Description::new("a", "hap")), Ok(()));
}

#[test]
fn offices() {
    let mut record = OrgRecord::new();
    assert!(record.set_moderator(Description::new("m", "hap")).is_none());
    let previous = record.set_moderator(Description::new("n", "hap")).unwrap();
    assert_eq!(previous.name(), "m@hap");
    let previous = record.set_owner(Description::new("o", "hap")).unwrap();
    assert_eq!(previous.name(), "n@hap");
}

#[test]
fn organization_name_and_defaults() {
    let org = Organization::new("club", "hap", OrgType::default(), Open);
    assert_eq!(org.name(), "club@hap");
    assert_eq!(OrgType::default(), OrgType::Team);
    assert_ne!(OrgAffiliation::Owner, OrgAffiliation::Member);
    assert_ne!(OrgRole::Moderator, OrgRole::NoRole);
}
