use std::borrow::Cow;

fn can_catch_strings() -> Result<(), eyre::ErrReport> {
    Err("watch me catch this string")?;

    Ok(())
}

fn can_catch_cows() -> Result<(), eyre::ErrReport> {
    Err(Cow::Borrowed("holy crap was that a cow??? mooooo"))
        .map_err(|e: Cow<'static, str>| eyre::ErrReport::from(e.into_owned()))?;

    Ok(())
}

#[test]
fn can_catch_all_the_things() {
    can_catch_strings()
        .map_err(|e| println!("{:?}", e))
        .unwrap_err();
    can_catch_cows()
        .map_err(|e| println!("{:?}", e))
        .unwrap_err();
}
