use std::sync::Arc;

use qubit_id::{IdGenerationError, IdGenerator, SnowflakeStringGenerator};

struct Fixed(Result<u64, ()>);

impl IdGenerator<u64, ()> for Fixed {
    fn generate(&self) -> Result<u64, ()> {
        self.0
    }
}

#[test]
fn string_generator_formats_decimal_text() {
    let generator = SnowflakeStringGenerator::new(Fixed(Ok(123_456_789)));
    assert_eq!(generator.generate(), Ok("123456789".to_string()));
    assert_eq!(generator.inner().0, Ok(123_456_789));
    let failing = SnowflakeStringGenerator::new(Fixed(Err(())));
    assert_eq!(failing.generate(), Err(()));
    assert_eq!(failing.into_inner().0, Err(()));
    let shared: Arc<dyn IdGenerator<String, ()>> = Arc::new(SnowflakeStringGenerator::new(Fixed(Ok(u64::MAX))));
    assert_eq!(shared.generate(), Ok("18446744073709551615".to_string()));
    assert_eq!(
        SnowflakeStringGenerator::<Fixed>::format_generated::<IdGenerationError>(Ok(0)).unwrap(),
        "0"
    );
}
