use api::{asset_name, generate_asset_name, generate_asset_names, Auth, AuthError, CognitoConfig, Error};

fn auth() -> Auth {
    Auth {
        cognito_client_id: "client-1".to_string(),
        cognito_pool_id: "pool-1".to_string(),
        cognito_identity_pool_id: "ident".to_string(),
        cognito_aws_region: "eu-west-1".to_string(),
    }
}

#[test]
fn provider_addresses() {
    let a = auth();
    assert_eq!(a.issuer(), "https://cognito-idp.eu-west-1.amazonaws.com/pool-1");
    assert_eq!(a.jwks_url(), "https://cognito-idp.eu-west-1.amazonaws.com/pool-1/.well-known/jwks.json");
    assert_eq!(a.audience(), "client-1");
    let c = CognitoConfig { awsregion: "r".to_string(), clientid: "c".to_string(), poolid: "p".to_string() };
    assert_eq!(c.jwks_url(), "https://cognito-idp.r.amazonaws.com/p/.well-known/jwks.json");
}

#[test]
fn status_codes() {
    assert_eq!(Error::Unauthorized.status_code(), 401);
    assert_eq!(Error::Jwt(AuthError::UnknownKey).status_code(), 401);
    assert_eq!(Error::Forbidden.status_code(), 403);
    assert_eq!(Error::NotFound.status_code(), 404);
    assert_eq!(Error::Store.status_code(), 500);
    assert!(Error::Jwt(AuthError::TokenRejected).needs_challenge());
    assert!(!Error::Forbidden.needs_challenge());
}

#[test]
fn asset_names_have_time_and_random_part() {
    assert_eq!(asset_name(1700000000, &"abc".to_string()), "1700000000_abc.kml");
    assert_eq!(asset_name(0, &"x".to_string()), "0_x.kml");
    assert_eq!(asset_name(-42, &"x".to_string()), "-42_x.kml");
    assert_eq!(asset_name(i64::MIN, &"x".to_string()), format!("{}_x.kml", i64::MIN));
    let n = generate_asset_name();
    assert!(n.ends_with(".kml"));
    let (time, rest) = n.split_once('_').unwrap();
    assert!(time.parse::<i64>().unwrap() > 1_600_000_000);
    let random = rest.strip_suffix(".kml").unwrap();
    assert_eq!(random.len(), 40);
    assert!(random.chars().all(|c| c.is_ascii_alphanumeric()));
    let names = generate_asset_names(3);
    assert_eq!(names.len(), 3);
    assert_ne!(names[0], names[1]);
}
