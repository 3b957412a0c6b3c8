use fp_rust::cor::Cor;
use std::sync::Arc;
use std::sync::Mutex;

#[test]
fn cor_sync_begin_runs_body_then_stops() {
    let ran = Arc::new(Mutex::new(false));
    let ran_body = ran.clone();
    let cor = Cor::<i16, i16>::new_with_mutex(move |_this| {
        *ran_body.lock().unwrap() = true;
    });
    assert_eq!(false, cor.lock().unwrap().is_started());
    assert_eq!(false, cor.lock().unwrap().is_alive());
    cor.lock().unwrap().set_async(false);
    assert_eq!(Some(false), Cor::begin(&cor));
    assert_eq!(true, cor.lock().unwrap().is_alive());
    Cor::run_body(cor.clone());
    assert_eq!(true, *ran.lock().unwrap());
    assert_eq!(true, cor.lock().unwrap().is_started());
    assert_eq!(false, cor.lock().unwrap().is_alive());
    // Already started: nothing more to run.
    assert_eq!(None, Cor::begin(&cor));
}

#[test]
fn cor_is_async_by_default() {
    let cor = Cor::<i16, i16>::new_with_mutex(move |_this| {});
    assert_eq!(Some(true), Cor::begin(&cor));
    assert_eq!(None, Cor::begin(&cor));
}

#[test]
fn cor_yields_of_a_stopped_cor_are_none() {
    let cor = Cor::<String, i16>::new_with_mutex(move |_this| {});
    // Not started: not alive, so yields answer None at once.
    assert_eq!(None, Cor::yield_none(cor.clone()));
    assert_eq!(None, Cor::yield_ref(cor.clone(), Some(String::from("x"))));
    let target = Cor::<i16, i16>::new_with_mutex(move |_this| {});
    assert_eq!(None, Cor::yield_from(cor.clone(), target.clone(), Some(3)));
}

#[test]
fn cor_yield_from_a_stopped_target_is_none() {
    let me = Cor::<i16, i16>::new_with_mutex(move |_this| {});
    let target = Cor::<i16, i16>::new_with_mutex(move |_this| {});
    assert_eq!(Some(true), Cor::begin(&me));
    // The target was never started, so it is not alive and does not answer.
    assert_eq!(None, Cor::yield_from(me.clone(), target.clone(), Some(3)));
    target.lock().unwrap().stop();
    assert_eq!(false, target.lock().unwrap().is_alive());
}

#[test]
fn cor_stop_ends_it() {
    let cor = Cor::<i16, i16>::new_with_mutex(move |_this| {});
    Cor::begin(&cor);
    cor.lock().unwrap().stop();
    assert_eq!(true, cor.lock().unwrap().is_started());
    assert_eq!(false, cor.lock().unwrap().is_alive());
    assert_eq!(None, Cor::yield_none(cor.clone()));
}
