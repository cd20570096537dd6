//! Remote/TEE bring-up stub: an external collaborator reached over a remote
//! shell. The library only computes the connection target; opening the shell
//! is the embedder's job.

use vstd::prelude::*;

use crate::config::TeeConfig;

verus! {

/// Holder of the remote bring-up parameters.
pub struct TEERunner {
    pub node_count: usize,
    pub ip: String,
    pub username: String,
    pub opensgx_dir: String,
}

impl TEERunner {
    /// Takes the remote section of the configuration over.
    pub fn new_with_cfg_file(cfg: &TeeConfig) -> (r: TEERunner)
        ensures
            r.node_count == cfg.node_count,
            r.ip == cfg.ip,
            r.username == cfg.username,
            r.opensgx_dir == cfg.opensgx_dir,
    {
        TEERunner {
            node_count: cfg.node_count,
            ip: cfg.ip.clone(),
            username: cfg.username.clone(),
            opensgx_dir: cfg.opensgx_dir.clone(),
        }
    }

    /// Arguments of the remote-shell invocation: `-T <username>@<ip>`.
    pub fn ssh_args(&self) -> (r: Vec<String>)
        ensures
            r@.len() == 2,
            r@[0]@ == "-T"@,
            r@[1]@ == self.username@ + "@"@ + self.ip@,
    {
        let mut target = self.username.clone();
        target.append("@");
        target.append(self.ip.as_str());
        let mut args: Vec<String> = Vec::new();
        args.push(String::from_str("-T"));
        args.push(target);
        args
    }
}

} // verus!
