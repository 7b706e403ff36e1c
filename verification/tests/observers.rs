use service_rs::control::{Phase, ServiceError};
use service_rs::service::{Event, Service, ServiceInstance, ServiceStatus};
use std::sync::mpsc::{channel, Receiver, RecvTimeoutError};
use std::sync::Arc;
use std::time::Duration;
use tokio::runtime::{Builder, Runtime};

const SOON: Duration = Duration::from_millis(2000);
const A_WHILE: Duration = Duration::from_millis(200);

fn workers(threads: usize) -> Runtime {
    Builder::new_multi_thread().worker_threads(1).max_blocking_threads(threads).build().unwrap()
}

/// An observer that reports the phase of each status it is woken with, and
/// ends when the service is stopped.
fn observe(rt: &Runtime, inst: Arc<ServiceInstance>, hold: bool) -> Receiver<(Phase, bool)> {
    let (report, reports) = channel();
    rt.spawn_blocking(move || loop {
        match inst.wait() {
            Ok(ServiceStatus::Stopped()) => {
                let _ = report.send((Phase::Stopped, inst.stopped()));
                return;
            }
            Ok(ServiceStatus::Paused(mut context)) => {
                let _ = report.send((Phase::Paused, inst.paused()));
                if hold {
                    let _ = context.wait();
                } else {
                    return;
                }
            }
            Ok(ServiceStatus::Running()) => {
                let _ = report.send((Phase::Running, inst.is_running()));
            }
            Err(_) => return,
        }
    });
    reports
}

#[test]
fn observer_sees_stop_within_bounded_time() {
    let rt = workers(2);
    let (mut svc, inst) = Service::new();
    let reports = observe(&rt, inst, true);
    assert_eq!(reports.recv_timeout(A_WHILE), Err(RecvTimeoutError::Timeout));
    assert!(matches!(svc.stop(), Ok(ServiceStatus::Stopped())));
    assert_eq!(reports.recv_timeout(Duration::from_millis(500)), Ok((Phase::Stopped, true)));
    rt.shutdown_background();
}

#[test]
fn woken_observer_reads_the_latest_status() {
    let rt = workers(2);
    let (mut svc, inst) = Service::new();
    let (report, reports) = channel();
    let (go_on, gone_on) = channel::<()>();
    rt.spawn_blocking(move || loop {
        match inst.wait() {
            Ok(ServiceStatus::Stopped()) => {
                let _ = report.send((Phase::Stopped, inst.stopped()));
                return;
            }
            Ok(ServiceStatus::Paused(mut context)) => {
                let _ = report.send((Phase::Paused, inst.paused()));
                let resumed = context.wait();
                let _ = report.send((Phase::Running, resumed.is_ok()));
                // A resume signals before it stores the running state: the
                // owner says when its call has returned.
                if gone_on.recv().is_err() {
                    return;
                }
            }
            Ok(ServiceStatus::Running()) => {
                let _ = report.send((Phase::Running, inst.is_running()));
            }
            Err(_) => return,
        }
    });
    assert_eq!(reports.recv_timeout(A_WHILE), Err(RecvTimeoutError::Timeout));
    assert!(matches!(svc.pause(), Ok(ServiceStatus::Paused(_))));
    assert_eq!(reports.recv_timeout(SOON), Ok((Phase::Paused, true)));
    assert_eq!(reports.recv_timeout(A_WHILE), Err(RecvTimeoutError::Timeout));
    assert!(matches!(svc.resume(), Ok(ServiceStatus::Running())));
    assert_eq!(reports.recv_timeout(SOON), Ok((Phase::Running, true)));
    go_on.send(()).unwrap();
    assert_eq!(reports.recv_timeout(A_WHILE), Err(RecvTimeoutError::Timeout));
    assert!(matches!(svc.pause(), Ok(ServiceStatus::Paused(_))));
    assert_eq!(reports.recv_timeout(SOON), Ok((Phase::Paused, true)));
    assert!(matches!(svc.resume(), Ok(ServiceStatus::Running())));
    assert_eq!(reports.recv_timeout(SOON), Ok((Phase::Running, true)));
    go_on.send(()).unwrap();
    nap();
    assert!(matches!(svc.stop(), Ok(ServiceStatus::Stopped())));
    assert_eq!(reports.recv_timeout(SOON), Ok((Phase::Stopped, true)));
    rt.shutdown_background();
}

fn nap() {
    let (_idle, timer) = channel::<()>();
    let _ = timer.recv_timeout(A_WHILE);
}

#[test]
fn two_observers_see_one_pause_once_each() {
    let rt = workers(4);
    let (mut svc, inst) = Service::new();
    let first = observe(&rt, inst.clone(), false);
    let second = observe(&rt, inst.clone(), false);
    assert_eq!(first.recv_timeout(A_WHILE), Err(RecvTimeoutError::Timeout));
    assert_eq!(second.recv_timeout(A_WHILE), Err(RecvTimeoutError::Timeout));
    assert!(matches!(svc.pause(), Ok(ServiceStatus::Paused(_))));
    assert_eq!(first.recv_timeout(SOON), Ok((Phase::Paused, true)));
    assert_eq!(second.recv_timeout(SOON), Ok((Phase::Paused, true)));
    assert_eq!(first.recv_timeout(SOON), Err(RecvTimeoutError::Disconnected));
    assert_eq!(second.recv_timeout(SOON), Err(RecvTimeoutError::Disconnected));
    assert!(inst.paused());
    rt.shutdown_background();
}

#[test]
fn paused_context_waits_for_the_resume() {
    let rt = workers(2);
    let (mut svc, _inst) = Service::new();
    let mut context = match svc.pause() {
        Ok(ServiceStatus::Paused(context)) => context,
        _ => panic!("the service was not paused"),
    };
    let (report, reports) = channel();
    rt.spawn_blocking(move || {
        let _ = report.send(context.wait());
    });
    assert_eq!(reports.recv_timeout(A_WHILE), Err(RecvTimeoutError::Timeout));
    assert!(matches!(svc.resume(), Ok(ServiceStatus::Running())));
    assert_eq!(reports.recv_timeout(SOON), Ok(Ok(())));
    rt.shutdown_background();
}

#[test]
fn stop_does_not_wake_a_resume_waiter() {
    let rt = workers(2);
    let (mut svc, _inst) = Service::new();
    let mut context = match svc.pause() {
        Ok(ServiceStatus::Paused(context)) => context,
        _ => panic!("the service was not paused"),
    };
    let (report, reports) = channel();
    rt.spawn_blocking(move || {
        let _ = report.send(context.wait());
    });
    assert_eq!(reports.recv_timeout(A_WHILE), Err(RecvTimeoutError::Timeout));
    assert!(matches!(svc.stop(), Ok(ServiceStatus::Stopped())));
    assert_eq!(reports.recv_timeout(A_WHILE), Err(RecvTimeoutError::Timeout));
    drop(svc);
    assert_eq!(reports.recv_timeout(SOON), Ok(Err(ServiceError::ChannelClosed)));
    rt.shutdown_background();
}

#[test]
fn second_pause_is_not_woken_by_the_first_resume() {
    let rt = workers(2);
    let (mut svc, _inst) = Service::new();
    let mut first = match svc.pause() {
        Ok(ServiceStatus::Paused(context)) => context,
        _ => panic!("the service was not paused"),
    };
    assert!(matches!(svc.resume(), Ok(ServiceStatus::Running())));
    let mut second = match svc.pause() {
        Ok(ServiceStatus::Paused(context)) => context,
        _ => panic!("the service was not paused"),
    };
    assert_eq!(first.wait(), Ok(()));
    let (report, reports) = channel();
    rt.spawn_blocking(move || {
        let _ = report.send(second.wait());
    });
    assert_eq!(reports.recv_timeout(A_WHILE), Err(RecvTimeoutError::Timeout));
    assert!(matches!(svc.resume(), Ok(ServiceStatus::Running())));
    assert_eq!(reports.recv_timeout(SOON), Ok(Ok(())));
    rt.shutdown_background();
}

#[test]
fn dropping_the_owner_stops_the_observers() {
    let rt = workers(4);
    let (svc, inst) = Service::new();
    let first = observe(&rt, inst.clone(), true);
    let second = observe(&rt, inst.clone(), true);
    assert_eq!(first.recv_timeout(A_WHILE), Err(RecvTimeoutError::Timeout));
    assert_eq!(second.recv_timeout(A_WHILE), Err(RecvTimeoutError::Timeout));
    drop(svc);
    assert_eq!(first.recv_timeout(SOON), Ok((Phase::Stopped, true)));
    assert_eq!(second.recv_timeout(SOON), Ok((Phase::Stopped, true)));
    assert!(inst.stopped());
    rt.shutdown_background();
}

#[test]
fn wait_future_is_ended_by_a_stop() {
    let rt = workers(2);
    let (mut svc, inst) = Service::new();
    let (report, reports) = channel();
    rt.spawn_blocking(move || {
        let seen = match inst.wait_future(futures::future::pending::<u8>()) {
            Ok(Event::StatusChanged(status)) => Ok(Some(status.phase())),
            Ok(Event::Future(_)) => Ok(None),
            Err(error) => Err(error),
        };
        let _ = report.send(seen);
    });
    assert_eq!(reports.recv_timeout(A_WHILE), Err(RecvTimeoutError::Timeout));
    assert!(matches!(svc.stop(), Ok(ServiceStatus::Stopped())));
    assert_eq!(reports.recv_timeout(SOON), Ok(Ok(Some(Phase::Stopped))));
    rt.shutdown_background();
}

#[test]
fn wait_future_reports_work_until_the_stop() {
    let rt = workers(2);
    let (mut svc, inst) = Service::new();
    let (report, reports) = channel();
    let (work_done, works_done) = channel();
    rt.spawn_blocking(move || {
        let mut finished: u32 = 0;
        loop {
            let work = futures::future::lazy(|_| {
                let (_idle, timer) = channel::<()>();
                let _ = timer.recv_timeout(Duration::from_millis(10));
            });
            match inst.wait_future(work) {
                Ok(Event::Future(())) => {
                    finished += 1;
                    let _ = work_done.send(());
                }
                Ok(Event::StatusChanged(status)) => {
                    let _ = report.send((finished, status.phase()));
                    return;
                }
                Err(_) => return,
            }
        }
    });
    assert_eq!(works_done.recv_timeout(SOON), Ok(()));
    assert_eq!(reports.recv_timeout(A_WHILE), Err(RecvTimeoutError::Timeout));
    assert!(matches!(svc.stop(), Ok(ServiceStatus::Stopped())));
    match reports.recv_timeout(SOON) {
        Ok((finished, phase)) => {
            assert!(finished > 0);
            assert_eq!(phase, Phase::Stopped);
        }
        Err(_) => panic!("the observer did not see the stop"),
    }
    rt.shutdown_background();
}
