use std::io::ErrorKind;
use std::io::Result;
use std::path::Path;
use std::path::PathBuf;

use async_fs::read_dir;
use async_fs::DirEntry;
use async_fs::ReadDir;
use async_walkdir::Action;
use async_walkdir::Error;
use async_walkdir::InnerError;
use async_walkdir::Machine;
use async_walkdir::Step;
use futures_lite::future::block_on;
use futures_lite::stream::StreamExt;

fn io_err(path: &Path, source: std::io::Error) -> Error {
    Error::from(InnerError::Io {
        path: path.to_owned(),
        source,
    })
}

/// A driver that runs the verified traversal machine against the real
/// filesystem: it performs exactly the unit of work the machine asks for
/// and feeds the outcome back in.
struct Walker {
    machine: Machine<DirEntry>,
    root: PathBuf,
    dirs: Vec<(PathBuf, ReadDir)>,
}

impl Walker {
    fn new(root: &Path) -> Self {
        Walker {
            machine: Machine::new(),
            root: root.to_owned(),
            dirs: Vec::new(),
        }
    }

    async fn next(&mut self) -> Option<std::result::Result<DirEntry, Error>> {
        loop {
            let step = match self.machine.next_action() {
                Action::OpenRoot => match read_dir(&self.root).await {
                    Ok(rd) => {
                        self.dirs.push((self.root.clone(), rd));
                        self.machine.on_root_open(Ok(()))
                    }
                    Err(e) => {
                        let p = self.root.clone();
                        self.machine.on_root_open(Err(io_err(&p, e)))
                    }
                },
                Action::ReadTop => {
                    let (path, rd) = self.dirs.last_mut().expect("a cursor is open");
                    match rd.next().await {
                        Some(Ok(entry)) => self.machine.on_entry(Some(Ok(entry))),
                        Some(Err(e)) => {
                            let p = path.clone();
                            self.machine.on_entry(Some(Err(io_err(&p, e))))
                        }
                        None => {
                            self.dirs.pop();
                            self.machine.on_entry(None)
                        }
                    }
                }
                Action::Probe => match self.machine.pending_entry().file_type().await {
                    Ok(ft) => self.machine.on_probe(Ok(ft.is_dir())),
                    Err(e) => {
                        let p = self.machine.pending_entry().path();
                        self.machine.on_probe(Err(io_err(&p, e)))
                    }
                },
                Action::OpenSubdir => {
                    let p = self.machine.pending_entry().path();
                    match read_dir(&p).await {
                        Ok(rd) => {
                            self.dirs.push((p, rd));
                            self.machine.on_subdir_open(Ok(()))
                        }
                        Err(e) => self.machine.on_subdir_open(Err(io_err(&p, e))),
                    }
                }
                Action::Finish => return None,
            };
            match step {
                Step::Emit(item) => return Some(item),
                Step::Continue => continue,
                Step::Finished => return None,
            }
        }
    }
}

#[test]
fn walk_dir_empty() -> Result<()> {
    block_on(async {
        let root = tempfile::tempdir()?;
        let mut wd = Walker::new(root.path());
        assert!(wd.next().await.is_none());
        Ok(())
    })
}

#[test]
fn walk_dir_not_exist() {
    block_on(async {
        let mut wd = Walker::new(Path::new("foobar"));
        match wd.next().await.unwrap() {
            Ok(_) => panic!("want error"),
            Err(e) => assert_eq!(e.io().unwrap().kind(), ErrorKind::NotFound),
        }
    })
}

#[test]
fn walk_dir_files() -> Result<()> {
    block_on(async {
        let root = tempfile::tempdir()?;
        let f1 = root.path().join("f1.txt");
        let d1 = root.path().join("d1");
        let f2 = d1.join("f2.txt");
        let d2 = d1.join("d2");
        let f3 = d2.join("f3.txt");

        async_fs::create_dir_all(&d2).await?;
        async_fs::write(&f1, []).await?;
        async_fs::write(&f2, []).await?;
        async_fs::write(&f3, []).await?;

        let want = vec![
            d1.to_owned(),
            d2.to_owned(),
            f3.to_owned(),
            f2.to_owned(),
            f1.to_owned(),
        ];
        let mut wd = Walker::new(root.path());

        let mut got = Vec::new();
        while let Some(entry) = wd.next().await {
            let entry = entry.unwrap();
            got.push(entry.path());
        }
        got.sort();
        assert_eq!(got, want);

        Ok(())
    })
}

#[test]
fn walk_dir_root_is_plain_file() -> Result<()> {
    block_on(async {
        let root = tempfile::tempdir()?;
        let plain = root.path().join("plain.txt");
        async_fs::write(&plain, []).await?;

        let mut wd = Walker::new(&plain);
        match wd.next().await.unwrap() {
            Ok(_) => panic!("want error"),
            Err(e) => assert_eq!(e.path().unwrap(), &plain),
        }
        assert!(wd.next().await.is_none());
        Ok(())
    })
}

#[test]
fn walk_dir_stops_early_without_finishing() -> Result<()> {
    block_on(async {
        let root = tempfile::tempdir()?;
        let d1 = root.path().join("d1");
        async_fs::create_dir_all(&d1).await?;
        async_fs::write(&d1.join("f.txt"), []).await?;

        let mut wd = Walker::new(root.path());
        // consume only part of the sequence, then stop pulling: dropping
        // the walker releases the still-open cursors
        assert!(wd.next().await.is_some());
        drop(wd);
        Ok(())
    })
}
