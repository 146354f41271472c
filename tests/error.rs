use std::io;

use dogstatsd::DogstatsdError;

#[test]
fn test_error_display() {
    let err = DogstatsdError::from(io::Error::new(io::ErrorKind::Other, "oh no!"));
    assert_eq!(err.to_string(), "oh no!".to_owned());
}
