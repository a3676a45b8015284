use job_dispatcher::job::{Job, Status};

fn poll_rt() -> tokio::runtime::Runtime {
    tokio::runtime::Builder::new_current_thread().enable_all().build().unwrap()
}

async fn write_poll_script(path: &str, body: &str) {
    let mut opts = tokio::fs::OpenOptions::new();
    opts.write(true).create(true).truncate(true).mode(0o755);
    let mut file = opts.open(path).await.unwrap();
    tokio::io::AsyncWriteExt::write_all(&mut file, body.as_bytes()).await.unwrap();
    tokio::io::AsyncWriteExt::flush(&mut file).await.unwrap();
}

#[test]
fn poll_before_start_fails() {
    let mut job = Job::new("unpolled", "/bin/true");
    assert_eq!(job.poll(), Err(-1));
    assert!(matches!(job.get_status(), Status::Standby));
}

#[test]
fn poll_running_then_finished() {
    poll_rt().block_on(async {
        let path = "/tmp/job_dispatcher_sleep1.sh";
        write_poll_script(path, "#!/bin/sh\nsleep 1\n").await;
        let mut job = Job::new("sleeper", path);
        job.start();
        // Still alive: every poll reports "not finished" and mutates nothing.
        for _ in 0..3 {
            assert_eq!(job.poll(), Ok(false));
            assert!(matches!(job.get_status(), Status::Running(_)));
        }
        // Once the process has terminated, the next poll records the
        // terminal status exactly once.
        loop {
            match job.poll() {
                Ok(false) => tokio::time::sleep(std::time::Duration::from_millis(50)).await,
                Ok(true) => break,
                Err(code) => panic!("poll rejected a running job with {}", code),
            }
        }
        assert!(matches!(job.get_status(), Status::Exit(0)));
        // The job is terminal now: further polls and waits fail cleanly.
        assert_eq!(job.poll(), Err(-1));
        assert_eq!(job.wait(), Err(-1));
        assert!(matches!(job.get_status(), Status::Exit(0)));
    });
}

#[test]
fn poll_then_wait_on_finished_job() {
    poll_rt().block_on(async {
        let mut job = Job::new("quick", "/bin/true");
        job.start();
        loop {
            match job.poll() {
                Ok(false) => tokio::time::sleep(std::time::Duration::from_millis(20)).await,
                Ok(true) => break,
                Err(code) => panic!("poll rejected a running job with {}", code),
            }
        }
        assert!(matches!(job.get_status(), Status::Exit(0)));
        assert_eq!(job.wait(), Err(-1));
    });
}

#[test]
fn dropping_running_job_kills_process() {
    poll_rt().block_on(async {
        let marker = "/tmp/job_dispatcher_drop_marker";
        let path = "/tmp/job_dispatcher_drop.sh";
        let body = "#!/bin/sh\nsleep 2\n: > /tmp/job_dispatcher_drop_marker\n";
        write_poll_script(path, body).await;
        let _ = tokio::fs::remove_file(marker).await;
        let mut job = Job::new("long-sleeper", path);
        job.start();
        assert_eq!(job.poll(), Ok(false));
        drop(job);
        // Had the process survived the drop, it would write the marker
        // after its two-second sleep.
        tokio::time::sleep(std::time::Duration::from_secs(3)).await;
        assert!(!tokio::fs::try_exists(marker).await.unwrap());
    });
}
