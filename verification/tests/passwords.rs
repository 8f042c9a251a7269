//! Password hashing and verification against the hashing collaborator.

use echo_server::auth::Password;
use echo_server::error::ApiError;

#[test]
fn test_hash() {
    let passwords = vec!["8nLpNaeJ", "9poyvjJN", "L3Chj2ne"];
    let salt = b"samplesalt";
    let test_hashes = vec![
        "$argon2i$v=19$m=4096,t=3,p=1$c2FtcGxlc2FsdA$75kN1JTjZ+AwNg3f5PvLU4Dp+4biUIo2BOqo9dYdXVE"
            .to_string()
            .into_bytes(),
        "$argon2i$v=19$m=4096,t=3,p=1$c2FtcGxlc2FsdA$yU0Lgj66mhc2a7HT6z9RTP6myZgssy99snipJyrAku4"
            .to_string()
            .into_bytes(),
        "$argon2i$v=19$m=4096,t=3,p=1$c2FtcGxlc2FsdA$d9UXA+y9LsGj89WB/3DNV6JpDwDr4fyo2rbjo02vilk"
            .to_string()
            .into_bytes(),
    ];

    let hashes: Vec<Password> = passwords
        .iter()
        .map(|x| Password::hash(x, Some(salt)).unwrap())
        .collect();

    assert_eq!(hashes[0].hash, test_hashes[0]);
    assert_eq!(hashes[1].hash, test_hashes[1]);
    assert_eq!(hashes[2].hash, test_hashes[2]);
}

#[test]
fn test_is_valid() {
    let password = "k2uEa77H";
    let salt = b"samplesalt";

    let hash = Password::hash(password, Some(salt)).unwrap();

    assert_eq!(hash.is_valid(password).unwrap(), true);
}

#[test]
fn fresh_salts_are_drawn_when_none_is_supplied() {
    let a = Password::hash("pw", None).unwrap();
    let b = Password::hash("pw", None).unwrap();
    assert_eq!(a.salt.len(), 32);
    assert_eq!(b.salt.len(), 32);
    // Two stored credentials for the same password should not collide: the
    // salts are random. (A collision of two 32-byte random salts would be
    // astronomically unlikely.)
    assert_ne!(a.salt, b.salt);
    assert_ne!(a.hash, b.hash);
    assert_eq!(a.is_valid("pw").unwrap(), true);
    assert_eq!(a.is_valid("pW").unwrap(), false);
}

#[test]
fn stored_garbage_fails_as_a_collaborator_error() {
    let stored = Password {
        hash: vec![0xff, 0xfe],
        salt: b"samplesalt".to_vec(),
    };
    assert_eq!(stored.is_valid("pw").unwrap_err(), ApiError::Collaborator);
    let stored = Password {
        hash: b"not an encoded hash".to_vec(),
        salt: b"samplesalt".to_vec(),
    };
    assert_eq!(stored.is_valid("pw").unwrap_err(), ApiError::Collaborator);
}
