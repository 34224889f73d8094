use docs_window::command::{classify, finish, plan, OpenError, Request};
use docs_window::config::{
    WindowConfig, DOCS_HEIGHT, DOCS_LABEL, DOCS_TITLE, DOCS_URL, DOCS_WIDTH,
};

/// A host that keeps the labels of its open windows and can be told to refuse
/// the next request.
struct Host {
    labels: Vec<String>,
    focused: Option<usize>,
    refuse: Option<String>,
}

impl Host {
    fn new() -> Host {
        Host { labels: Vec::new(), focused: None, refuse: None }
    }

    fn lookup(&self, label: &str) -> Option<usize> {
        self.labels.iter().position(|known| known == label)
    }

    fn count(&self, label: &str) -> usize {
        self.labels.iter().filter(|known| known.as_str() == label).count()
    }

    fn close(&mut self, label: &str) {
        self.labels.retain(|known| known != label);
        self.focused = None;
    }

    fn serve(&mut self, request: &Request<usize>) -> Result<(), String> {
        if let Some(message) = self.refuse.take() {
            return Err(message);
        }
        match request {
            Request::Focus(index) => self.focused = Some(*index),
            Request::Create(config) => {
                self.labels.push(config.label.clone());
                self.focused = Some(self.labels.len() - 1);
            }
        }
        Ok(())
    }

    fn open_docs(&mut self) -> Result<(), String> {
        let request = plan(self.lookup(DOCS_LABEL));
        let reply = self.serve(&request);
        finish(&request, reply)
    }
}

#[test]
fn constants_have_the_fixed_values() {
    assert_eq!(DOCS_LABEL, "docs");
    assert_eq!(DOCS_URL, "README.html");
    assert_eq!(DOCS_TITLE, "MiStory Documentation");
    assert_eq!(DOCS_WIDTH, 900);
    assert_eq!(DOCS_HEIGHT, 750);
}

#[test]
fn docs_config_holds_the_fixed_attributes() {
    let config = WindowConfig::docs();
    assert_eq!(config.label, "docs");
    assert_eq!(config.url, "README.html");
    assert_eq!(config.title, "MiStory Documentation");
    assert_eq!(config.width, 900);
    assert_eq!(config.height, 750);
}

#[test]
fn plan_creates_when_nothing_was_found() {
    let request = plan::<u32>(None);
    assert_eq!(
        request,
        Request::Create(WindowConfig {
            label: "docs".to_string(),
            url: "README.html".to_string(),
            title: "MiStory Documentation".to_string(),
            width: 900,
            height: 750,
        })
    );
}

#[test]
fn plan_focuses_the_window_that_was_found() {
    assert_eq!(plan(Some(42u32)), Request::Focus(42));
    assert_eq!(plan(Some("handle")), Request::Focus("handle"));
}

#[test]
fn classify_keeps_success() {
    assert_eq!(classify(&plan(Some(1u8)), Ok(())), Ok(()));
    assert_eq!(classify(&plan::<u8>(None), Ok(())), Ok(()));
}

#[test]
fn classify_names_a_focus_failure() {
    let outcome = classify(&plan(Some(1u8)), Err("window handle is invalid".to_string()));
    assert_eq!(outcome, Err(OpenError::FocusFailure("window handle is invalid".to_string())));
}

#[test]
fn classify_names_a_creation_failure() {
    let outcome = classify(&plan::<u8>(None), Err("asset not found".to_string()));
    assert_eq!(outcome, Err(OpenError::CreationFailure("asset not found".to_string())));
}

#[test]
fn into_message_gives_the_hosts_message() {
    assert_eq!(OpenError::FocusFailure("lost".to_string()).into_message(), "lost");
    assert_eq!(OpenError::CreationFailure("full".to_string()).into_message(), "full");
}

#[test]
fn finish_passes_success_on() {
    assert_eq!(finish(&plan(Some(3u8)), Ok(())), Ok(()));
    assert_eq!(finish(&plan::<u8>(None), Ok(())), Ok(()));
}

#[test]
fn finish_reports_a_failed_focus_with_the_hosts_message() {
    let result = finish(&plan(Some(3u8)), Err("failed to focus".to_string()));
    assert_eq!(result, Err("failed to focus".to_string()));
    assert!(!result.unwrap_err().is_empty());
}

#[test]
fn finish_reports_a_failed_creation_with_the_hosts_message() {
    let result = finish(&plan::<u8>(None), Err("failed to create window".to_string()));
    assert_eq!(result, Err("failed to create window".to_string()));
    assert!(!result.unwrap_err().is_empty());
}

#[test]
fn finish_keeps_an_empty_message_empty() {
    assert_eq!(finish(&plan(Some(3u8)), Err(String::new())), Err(String::new()));
}

#[test]
fn opening_without_a_window_creates_it() {
    let mut host = Host::new();
    assert_eq!(host.open_docs(), Ok(()));
    assert_eq!(host.labels, vec!["docs".to_string()]);
    assert_eq!(host.focused, Some(0));
}

#[test]
fn opening_with_a_window_focuses_it_and_creates_none() {
    let mut host = Host::new();
    host.labels.push("main".to_string());
    host.labels.push("docs".to_string());
    host.focused = Some(0);
    assert_eq!(host.open_docs(), Ok(()));
    assert_eq!(host.labels, vec!["main".to_string(), "docs".to_string()]);
    assert_eq!(host.focused, Some(1));
}

#[test]
fn failed_focus_is_reported_and_creates_no_window() {
    let mut host = Host::new();
    host.labels.push("docs".to_string());
    host.refuse = Some("the window was destroyed".to_string());
    assert_eq!(host.open_docs(), Err("the window was destroyed".to_string()));
    assert_eq!(host.labels, vec!["docs".to_string()]);
    assert_eq!(host.focused, None);
}

#[test]
fn failed_creation_is_reported_and_registers_nothing() {
    let mut host = Host::new();
    host.refuse = Some("could not allocate a window".to_string());
    assert_eq!(host.open_docs(), Err("could not allocate a window".to_string()));
    assert!(host.labels.is_empty());
    assert_eq!(host.focused, None);
}

#[test]
fn at_most_one_docs_window_over_a_sequence_of_invocations() {
    let mut host = Host::new();
    host.labels.push("main".to_string());
    for round in 0..12 {
        if round % 4 == 1 {
            host.refuse = Some("refused".to_string());
        }
        if round % 5 == 3 {
            host.close("docs");
        }
        let _ = host.open_docs();
        assert!(host.count("docs") <= 1);
    }
    assert_eq!(host.count("docs"), 1);
    assert_eq!(host.count("main"), 1);
}

#[test]
fn create_refocus_recreate() {
    let mut host = Host::new();

    assert_eq!(host.lookup("docs"), None);
    assert_eq!(host.open_docs(), Ok(()));
    assert_eq!(host.count("docs"), 1);
    assert_eq!(host.focused, host.lookup("docs"));

    host.focused = None;
    assert_eq!(host.open_docs(), Ok(()));
    assert_eq!(host.count("docs"), 1);
    assert_eq!(host.focused, host.lookup("docs"));

    host.close("docs");
    assert_eq!(host.count("docs"), 0);
    assert_eq!(host.open_docs(), Ok(()));
    assert_eq!(host.count("docs"), 1);
    assert_eq!(host.focused, host.lookup("docs"));
}
