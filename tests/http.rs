use std::collections::HashSet;

use station_api::http::{check_rate_limit, member_ids, read_body, Error, ErrorMessage, GuildMember, User};

fn member(id: &str) -> GuildMember {
    GuildMember {
        roles: HashSet::new(),
        user: User {
            id: id.to_string(),
            username: format!("user{id}"),
            discriminator: "0".to_string(),
            global_name: None,
            avatar: None,
        },
    }
}

#[test]
fn too_many_requests_is_rate_limited() {
    assert_eq!(check_rate_limit(429), Err(Error::RateLimited));
    assert_eq!(check_rate_limit(200), Ok(()));
    assert_eq!(check_rate_limit(404), Ok(()));
}

#[test]
fn member_ids_in_order() {
    let members = vec![member("10"), member("20"), member("5")];
    assert_eq!(member_ids(&members), vec!["10", "20", "5"]);
    assert!(member_ids(&Vec::new()).is_empty());
}

#[test]
fn body_reading_prefers_record_then_service_error() {
    let msg = || Ok(ErrorMessage { code: 10007, message: "Unknown Member".to_string() });
    assert_eq!(read_body(Some(5u32), msg()), Ok(5));
    assert_eq!(
        read_body::<u32>(None, msg()),
        Err(Error::Discord { code: 10007, message: "Unknown Member".to_string() })
    );
    assert_eq!(
        read_body::<u32>(None, Err("expected value".to_string())),
        Err(Error::Json("expected value".to_string()))
    );
}
