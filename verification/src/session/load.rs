//! Loading a plug-in into a worker that has just been connected: a ping,
//! the load, the plug-in's description, then one description for each of its
//! parameters. Each step takes the outcome of the last exchange and gives
//! the next request, the session, or the error that ends the attempt.

use vstd::prelude::*;
use vstd::string::StringExecFns;
use vstd::utf8::encode_utf8;
use crate::bytes::{fixed_field, u32_le};
use crate::client::{decode_info, decode_param_info, Request, RequestView};
use crate::error::{Error, Fault};
use crate::paths::{wine_path, worker_path};
use crate::protocol::{
    HostCommand, RespParamInfo, RespParamInfoView, RespPluginInfo, RespPluginInfoView,
};
use crate::session::{
    loaded_info, param_views, AudioStateView, SessionView, WineVst3Plugin,
};

verus! {

/// Which answer a loader waits for.
#[derive(Debug, Clone, Copy, PartialEq, Eq, Structural)]
pub enum LoadStage {
    Ping,
    LoadPlugin,
    GetInfo,
    ParamInfo,
}

/// A plug-in on its way into a session.
#[derive(Debug)]
pub struct Loader {
    path: String,
    stage: LoadStage,
    descriptor: Option<RespPluginInfo>,
    params: Vec<RespParamInfo>,
}

/// A loader as mathematical values.
pub struct LoaderView {
    pub path: Seq<char>,
    pub stage: LoadStage,
    pub descriptor: Option<RespPluginInfoView>,
    pub params: Seq<RespParamInfoView>,
}

/// What a step of loading gives.
#[derive(Debug)]
pub enum LoadStep {
    /// Send the request, and come back with the outcome of the exchange.
    Send(Loader, Request),
    /// The plug-in is loaded.
    Ready(WineVst3Plugin),
    /// Loading failed; all that was acquired for it is to be released.
    Failed(Error),
}

/// What a step of loading gives, as mathematical values.
pub enum LoadStepView {
    Send(LoaderView, RequestView),
    Ready(SessionView),
    Failed(Error),
}

/// The outcome of an exchange as mathematical values.
pub open spec fn reply_view(reply: Result<Vec<u8>, Error>) -> Result<Seq<u8>, Error> {
    match reply {
        Ok(payload) => Ok(payload@),
        Err(e) => Err(e),
    }
}

impl LoaderView {
    /// What holds of every loader: it has the plug-in's description, and
    /// fewer parameters than that announces, exactly while it collects
    /// parameters.
    pub open spec fn well_formed(self) -> bool {
        match self.stage {
            LoadStage::ParamInfo => self.descriptor matches Some(d) && self.params.len()
                < d.num_params,
            _ => self.descriptor is None && self.params.len() == 0,
        }
    }

    /// The loader that `start` gives for a plug-in at `path`.
    pub open spec fn fresh(path: Seq<char>) -> LoaderView {
        LoaderView { path, stage: LoadStage::Ping, descriptor: None, params: Seq::empty() }
    }

    /// The session of the plug-in that describes itself as `descriptor` and
    /// its parameters as `params`.
    pub open spec fn session(
        self,
        descriptor: RespPluginInfoView,
        params: Seq<RespParamInfoView>,
    ) -> SessionView {
        SessionView {
            info: loaded_info(self.path, descriptor),
            descriptor,
            params,
            audio: AudioStateView::Unarmed,
            closed: None,
        }
    }

    /// The step that follows the outcome of the last exchange. A failed
    /// exchange ends loading with its error. A ping that succeeded is
    /// followed by the load of class 0 from the path as the worker sees
    /// it; the load by the request for the plug-in's description; the
    /// description by the request for the first parameter, and each
    /// parameter by the request for the next, until there are as many as the
    /// description announces. A description too short for its kind ends
    /// loading with a transport fault.
    pub open spec fn advance(self, reply: Result<Seq<u8>, Error>) -> LoadStepView {
        match reply {
            Err(e) => LoadStepView::Failed(e),
            Ok(payload) => match self.stage {
                LoadStage::Ping => LoadStepView::Send(
                    LoaderView { stage: LoadStage::LoadPlugin, ..self },
                    RequestView {
                        command: HostCommand::LoadPlugin,
                        payload: fixed_field(encode_utf8(worker_path(self.path)), 1024) + u32_le(
                            0,
                        ),
                    },
                ),
                LoadStage::LoadPlugin => LoadStepView::Send(
                    LoaderView { stage: LoadStage::GetInfo, ..self },
                    RequestView { command: HostCommand::GetInfo, payload: Seq::empty() },
                ),
                LoadStage::GetInfo => match RespPluginInfoView::decode(payload) {
                    None => LoadStepView::Failed(Error::Transport(Fault::MalformedReply)),
                    Some(d) => if d.num_params == 0 {
                        LoadStepView::Ready(self.session(d, Seq::empty()))
                    } else {
                        LoadStepView::Send(
                            LoaderView {
                                stage: LoadStage::ParamInfo,
                                descriptor: Some(d),
                                ..self
                            },
                            RequestView {
                                command: HostCommand::GetParamInfo,
                                payload: u32_le(0),
                            },
                        )
                    },
                },
                LoadStage::ParamInfo => match RespParamInfoView::decode(payload) {
                    None => LoadStepView::Failed(Error::Transport(Fault::MalformedReply)),
                    Some(p) => {
                        let params = self.params.push(p);
                        let d = self.descriptor.unwrap();
                        if params.len() == d.num_params {
                            LoadStepView::Ready(self.session(d, params))
                        } else {
                            LoadStepView::Send(
                                LoaderView { params, ..self },
                                RequestView {
                                    command: HostCommand::GetParamInfo,
                                    payload: u32_le(params.len() as u32),
                                },
                            )
                        }
                    },
                },
            },
        }
    }
}

/// Loading keeps loaders well formed, and ends in a well-formed session:
/// one with as many parameter descriptions as the plug-in announces. While
/// it collects parameters, it asks for the one behind those it has, which
/// the plug-in has announced.
pub proof fn lemma_advance_well_formed(loader: LoaderView, reply: Result<Seq<u8>, Error>)
    requires
        loader.well_formed(),
    ensures
        loader.advance(reply) matches LoadStepView::Send(next, _) ==> next.well_formed(),
        loader.advance(reply) matches LoadStepView::Send(next, request) ==> (next.stage
            == LoadStage::ParamInfo ==> request == (RequestView {
            command: HostCommand::GetParamInfo,
            payload: u32_le(next.params.len() as u32),
        }) && next.params.len() < next.descriptor.unwrap().num_params),
        loader.advance(reply) matches LoadStepView::Ready(session) ==> session.well_formed()
            && session.params.len() == session.descriptor.num_params,
{
    if loader.stage == LoadStage::GetInfo {
        assert(loader.params =~= Seq::empty());
    }
}

impl View for Loader {
    type V = LoaderView;

    closed spec fn view(&self) -> LoaderView {
        LoaderView {
            path: self.path@,
            stage: self.stage,
            descriptor: match self.descriptor {
                Some(d) => Some(d@),
                None => None,
            },
            params: param_views(self.params@),
        }
    }
}

impl View for LoadStep {
    type V = LoadStepView;

    open spec fn view(&self) -> LoadStepView {
        match *self {
            LoadStep::Send(loader, request) => LoadStepView::Send(loader@, request@),
            LoadStep::Ready(session) => LoadStepView::Ready(session@),
            LoadStep::Failed(e) => LoadStepView::Failed(e),
        }
    }
}

impl Loader {
    #[verifier::type_invariant]
    spec fn sound(self) -> bool {
        self@.well_formed()
    }

    /// Begins to load the plug-in at `plugin_path`: gives the loader, and
    /// the ping that is the first request to send.
    pub fn start(plugin_path: &str) -> (r: (Loader, Request))
        ensures
            r.0@ == LoaderView::fresh(plugin_path@),
            r.1@ == (RequestView { command: HostCommand::Ping, payload: Seq::empty() }),
    {
        let loader = Loader {
            path: String::from_str(plugin_path),
            stage: LoadStage::Ping,
            descriptor: None,
            params: Vec::new(),
        };
        assert(param_views(loader.params@) =~= Seq::empty());
        (loader, Request::ping())
    }

    /// Which answer the loader waits for.
    pub fn stage(&self) -> (stage: LoadStage)
        ensures
            stage == self@.stage,
    {
        self.stage
    }

    /// Takes the outcome of the last exchange and gives the next step.
    pub fn advance(self, reply: Result<Vec<u8>, Error>) -> (step: LoadStep)
        ensures
            step@ == self@.advance(reply_view(reply)),
    {
        proof {
            use_type_invariant(&self);
        }
        let payload: Vec<u8> = match reply {
            Ok(payload) => payload,
            Err(e) => {
                return LoadStep::Failed(e);
            },
        };
        let Loader { path, stage, descriptor, params } = self;
        match stage {
            LoadStage::Ping => {
                let seen: String = wine_path(path.as_str());
                let request = Request::load_plugin(seen.as_str(), 0);
                LoadStep::Send(
                    Loader { path, stage: LoadStage::LoadPlugin, descriptor, params },
                    request,
                )
            },
            LoadStage::LoadPlugin => LoadStep::Send(
                Loader { path, stage: LoadStage::GetInfo, descriptor, params },
                Request::get_info(),
            ),
            LoadStage::GetInfo => match decode_info(payload.as_slice()) {
                Err(e) => LoadStep::Failed(e),
                Ok(info) => {
                    if info.num_params == 0 {
                        assert(param_views(params@) =~= Seq::empty());
                        match WineVst3Plugin::connected(path.as_str(), info, params) {
                            Some(session) => LoadStep::Ready(session),
                            None => LoadStep::Failed(Error::Transport(Fault::MalformedReply)),
                        }
                    } else {
                        LoadStep::Send(
                            Loader {
                                path,
                                stage: LoadStage::ParamInfo,
                                descriptor: Some(info),
                                params,
                            },
                            Request::get_param_info(0),
                        )
                    }
                },
            },
            LoadStage::ParamInfo => match decode_param_info(payload.as_slice()) {
                Err(e) => LoadStep::Failed(e),
                Ok(param) => {
                    let info: RespPluginInfo = match descriptor {
                        Some(info) => info,
                        None => {
                            return LoadStep::Failed(Error::Transport(Fault::MalformedReply));
                        },
                    };
                    let mut params = params;
                    let ghost before = param_views(params@);
                    params.push(param);
                    assert(param_views(params@) =~= before.push(param@));
                    if params.len() == info.num_params as usize {
                        match WineVst3Plugin::connected(path.as_str(), info, params) {
                            Some(session) => LoadStep::Ready(session),
                            None => LoadStep::Failed(Error::Transport(Fault::MalformedReply)),
                        }
                    } else {
                        let next: u32 = params.len() as u32;
                        LoadStep::Send(
                            Loader {
                                path,
                                stage: LoadStage::ParamInfo,
                                descriptor: Some(info),
                                params,
                            },
                            Request::get_param_info(next),
                        )
                    }
                },
            },
        }
    }
}

} // verus!
