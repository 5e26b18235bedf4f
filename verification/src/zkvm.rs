use vstd::prelude::*;
use vstd::string::*;

verus! {

broadcast use vstd::string::group_string_axioms;

/// Errors of proving.
#[derive(Debug, Clone, PartialEq, Eq)]
pub enum ZkvmError {
    MissingBonsaiApiKey,
    LocalProvingError { descr: String },
    BonsaiProvingError { descr: String },
    UnsupportedReceiptType { descr: String },
}

/// Where to reach the Bonsai proving service. A field left out is taken
/// from the environment, the URL falling back to the public service.
#[derive(Debug, Clone)]
pub struct BonsaiProverOptions {
    pub api_url: Option<String>,
    pub api_key: Option<String>,
}

/// The Bonsai URL used when neither the options nor the environment give one.
pub open spec fn default_bonsai_url() -> Seq<char> {
    "https://api.bonsai.xyz/"@
}

impl BonsaiProverOptions {
    /// The service URL: the option's, else the environment's
    /// `BONSAI_API_URL` (passed in), else the public service.
    pub fn api_url(&self, env_api_url: Option<String>) -> (r: String)
        ensures
            self.api_url matches Some(u) ==> r@ == u@,
            self.api_url is None ==> (env_api_url matches Some(u) ==> r@ == u@),
            self.api_url is None && env_api_url is None ==> r@ == default_bonsai_url(),
    {
        match &self.api_url {
            Some(u) => u.clone(),
            None => match env_api_url {
                Some(u) => u,
                None => String::from_str("https://api.bonsai.xyz/"),
            },
        }
    }

    /// The API key: the option's, else the environment's `BONSAI_API_KEY`
    /// (passed in); an error when neither has one.
    pub fn api_key(&self, env_api_key: Option<String>) -> (r: Result<String, ZkvmError>)
        ensures
            self.api_key matches Some(k) ==> (r matches Ok(s) && s@ == k@),
            self.api_key is None ==> (env_api_key matches Some(k) ==> (r matches Ok(s) && s@ == k@)),
            self.api_key is None && env_api_key is None ==> r == Err::<String, ZkvmError>(ZkvmError::MissingBonsaiApiKey),
    {
        match &self.api_key {
            Some(k) => Ok(k.clone()),
            None => match env_api_key {
                Some(k) => Ok(k),
                None => Err(ZkvmError::MissingBonsaiApiKey),
            },
        }
    }
}

/// Which prover runs a proof.
#[derive(Debug, Clone)]
pub enum Risc0ProverMode {
    /// A mock prover, for development.
    Dev,
    /// The local prover.
    Local,
    /// The Bonsai proving service.
    Bonsai(BonsaiProverOptions),
}

/// A change to the process environment.
#[derive(Debug, Clone)]
pub enum EnvAction {
    SetVar { key: String, value: String },
    RemoveVar { key: String },
}

/// The name of a prover mode.
pub open spec fn mode_name(m: Risc0ProverMode) -> Seq<char> {
    match m {
        Risc0ProverMode::Dev => "dev"@,
        Risc0ProverMode::Local => "local"@,
        Risc0ProverMode::Bonsai(_) => "bonsai"@,
    }
}

impl Risc0ProverMode {
    /// The mock prover is selected.
    pub fn is_dev_mode(&self) -> (r: bool)
        ensures
            r == (*self is Dev),
    {
        match self {
            Risc0ProverMode::Dev => true,
            _ => false,
        }
    }

    /// The mode's name: `dev`, `local` or `bonsai`.
    pub fn to_string(&self) -> (r: String)
        ensures
            r@ == mode_name(*self),
    {
        match self {
            Risc0ProverMode::Dev => String::from_str("dev"),
            Risc0ProverMode::Local => String::from_str("local"),
            Risc0ProverMode::Bonsai(_) => String::from_str("bonsai"),
        }
    }

    /// The name of the local prover to run, `None` for the Bonsai service.
    pub fn local_prover_name(&self) -> (r: Option<String>)
        ensures
            *self is Bonsai ==> r is None,
            !(*self is Bonsai) ==> (r matches Some(n) && n@ == mode_name(*self)),
    {
        match self {
            Risc0ProverMode::Bonsai(_) => None,
            _ => Some(self.to_string()),
        }
    }

    /// The environment a mode runs with: the development flag set for the
    /// mock prover and removed otherwise; for Bonsai also the service URL
    /// and API key, resolved as `BonsaiProverOptions` does. An error when
    /// Bonsai has no API key.
    pub fn env_actions(&self, env_api_url: Option<String>, env_api_key: Option<String>) -> (r: Result<
        Vec<EnvAction>,
        ZkvmError,
    >)
        ensures
            *self is Dev ==> (r matches Ok(v) && v@.len() == 1 && (v@[0] matches EnvAction::SetVar { key, value }
                && key@ == "RISC0_DEV_MODE"@ && value@ == "1"@)),
            *self is Local ==> (r matches Ok(v) && v@.len() == 1 && (v@[0] matches EnvAction::RemoveVar { key }
                && key@ == "RISC0_DEV_MODE"@)),
            *self matches Risc0ProverMode::Bonsai(o) ==> (o.api_key is None && env_api_key is None <==> r is Err),
            *self matches Risc0ProverMode::Bonsai(o) ==> (r matches Err(e) ==> e == ZkvmError::MissingBonsaiApiKey),
            *self matches Risc0ProverMode::Bonsai(o) ==> (r matches Ok(v) ==> v@.len() == 3
                && (v@[0] matches EnvAction::RemoveVar { key } && key@ == "RISC0_DEV_MODE"@)
                && (v@[1] matches EnvAction::SetVar { key, value } && key@ == "BONSAI_API_URL"@ && (
                    o.api_url matches Some(u) ==> value@ == u@))
                && (v@[2] matches EnvAction::SetVar { key, value } && key@ == "BONSAI_API_KEY"@ && (
                    o.api_key matches Some(k) ==> value@ == k@))),
    {
        let mut v: Vec<EnvAction> = Vec::new();
        match self {
            Risc0ProverMode::Dev => {
                v.push(EnvAction::SetVar { key: String::from_str("RISC0_DEV_MODE"), value: String::from_str("1") });
            },
            Risc0ProverMode::Local => {
                v.push(EnvAction::RemoveVar { key: String::from_str("RISC0_DEV_MODE") });
            },
            Risc0ProverMode::Bonsai(opts) => {
                v.push(EnvAction::RemoveVar { key: String::from_str("RISC0_DEV_MODE") });
                let url = opts.api_url(env_api_url);
                v.push(EnvAction::SetVar { key: String::from_str("BONSAI_API_URL"), value: url });
                let key = opts.api_key(env_api_key)?;
                v.push(EnvAction::SetVar { key: String::from_str("BONSAI_API_KEY"), value: key });
            },
        }
        Ok(v)
    }
}

} // verus!
