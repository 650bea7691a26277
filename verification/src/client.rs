//! The client handle and the operation façade.  The handle carries the
//! service's base URL and the Basic-Authentication header value, fixed at
//! construction; every method only reads them, so one handle may serve
//! any number of callers at once.  Each operation method validates and
//! marshals the host's input into a prepared call — the exact request the
//! transport layer is to perform — with every mapping key of a request
//! body rewritten to the wire convention first.  The transport layer
//! performs the prepared call and hands the typed outcome to
//! [`crate::normalize::finish_call`].

use vstd::prelude::*;
use vstd::string::*;
use crate::auth::{basic_auth, basic_auth_value};
use crate::dynvalue::DynValue;
use crate::normalize::RaisedError;
use crate::transcode::{camel_dyn, camel_case_hash_keys};

verus! {

/// One remote capability of the service.
#[derive(Debug, PartialEq, Eq, Structural)]
pub enum Operation {
    GetSalesOrder,
    VoidSalesOrder,
    CheckComplianceOfSalesOrder,
    CommitSalesOrder,
    PersistSalesOrder,
    AddUpdateProduct,
    AddUpdateBrand,
    GetSalesTaxRatesByAddress,
    CalculateSalesTaxDueForOrder,
    GetSalesOrderTracking,
}

/// A fully marshalled request, ready for the transport layer: the
/// operation, its path identifier and optional shipment-key filter when
/// it takes them, and its request body — already in the wire convention —
/// when it takes one.
#[derive(Debug)]
pub struct PreparedCall {
    pub op: Operation,
    pub sales_order_key: Option<String>,
    pub shipment_keys: Option<Vec<String>>,
    pub body: Option<DynValue>,
}

/// A client handle: one per host-side construction, immutable afterwards.
pub struct V1Client {
    pub base_url: String,
    pub auth_header: String,
}

/// The message raised when a request body is not a mapping.
pub open spec fn body_not_mapping_message() -> Seq<char> {
    "error: request body must be a mapping"@
}

impl V1Client {
    /// Builds a handle for the service at the base URL, with the
    /// Basic-Authentication header value for the given credentials.
    /// Construction is lazy: no transport is touched, so it always
    /// succeeds, and an unreachable base URL surfaces on the first call.
    pub fn new(baseurl: String, username: String, password: String) -> (r: Result<V1Client, RaisedError>)
        ensures
            r matches Ok(c)
                && c.base_url@ == baseurl@
                && c.auth_header@ == basic_auth_value(username@, Some(password@)),
    {
        let header = basic_auth(username.as_str(), Some(password.as_str()));
        Ok(V1Client { base_url: baseurl, auth_header: header })
    }

    /// Marshals one keyed operation: the key is carried through; there is
    /// no body, so nothing can fail before the network.
    fn prepare_keyed(&self, op: Operation, sales_order_key: String) -> (r: PreparedCall)
        ensures
            r.op == op,
            r.sales_order_key matches Some(k) && k@ == sales_order_key@,
            r.shipment_keys is None,
            r.body is None,
    {
        PreparedCall {
            op,
            sales_order_key: Some(sales_order_key),
            shipment_keys: None,
            body: None,
        }
    }

    /// Marshals one body-taking operation: a mapping input has every
    /// nested key rewritten to the wire convention and becomes the body;
    /// any other input is a client-side error, raised before any network
    /// call.
    fn prepare_body(&self, op: Operation, input: &DynValue) -> (r: Result<PreparedCall, RaisedError>)
        ensures
            input@ is Object ==> (r matches Ok(p)
                && p.op == op
                && p.sales_order_key is None
                && p.shipment_keys is None
                && (p.body matches Some(b) && b@ == camel_dyn(input@))),
            !(input@ is Object) ==> (r matches Err(e) && e@ == body_not_mapping_message()),
    {
        match input {
            DynValue::Object(_) => Ok(PreparedCall {
                op,
                sales_order_key: None,
                shipment_keys: None,
                body: Some(camel_case_hash_keys(input)),
            }),
            _ => Err(RaisedError {
                message: String::from_str("error: request body must be a mapping"),
            }),
        }
    }

    /// Marshals the fetch of one sales order by its key.
    pub fn get_sales_order(&self, sales_order_key: String) -> (r: PreparedCall)
        ensures
            r.op == Operation::GetSalesOrder,
            r.sales_order_key matches Some(k) && k@ == sales_order_key@,
            r.shipment_keys is None,
            r.body is None,
    {
        self.prepare_keyed(Operation::GetSalesOrder, sales_order_key)
    }

    /// Marshals the voiding of one sales order by its key.
    pub fn void_sales_order(&self, sales_order_key: String) -> (r: PreparedCall)
        ensures
            r.op == Operation::VoidSalesOrder,
            r.sales_order_key matches Some(k) && k@ == sales_order_key@,
            r.shipment_keys is None,
            r.body is None,
    {
        self.prepare_keyed(Operation::VoidSalesOrder, sales_order_key)
    }

    /// Marshals a compliance check of a sales order from a host mapping.
    pub fn check_compliance_of_sales_order(&self, input: &DynValue) -> (r: Result<PreparedCall, RaisedError>)
        ensures
            input@ is Object ==> (r matches Ok(p)
                && p.op == Operation::CheckComplianceOfSalesOrder
                && p.sales_order_key is None
                && p.shipment_keys is None
                && (p.body matches Some(b) && b@ == camel_dyn(input@))),
            !(input@ is Object) ==> (r matches Err(e) && e@ == body_not_mapping_message()),
    {
        self.prepare_body(Operation::CheckComplianceOfSalesOrder, input)
    }

    /// Marshals the commit of a sales order from a host mapping.
    pub fn commit_sales_order(&self, input: &DynValue) -> (r: Result<PreparedCall, RaisedError>)
        ensures
            input@ is Object ==> (r matches Ok(p)
                && p.op == Operation::CommitSalesOrder
                && p.sales_order_key is None
                && p.shipment_keys is None
                && (p.body matches Some(b) && b@ == camel_dyn(input@))),
            !(input@ is Object) ==> (r matches Err(e) && e@ == body_not_mapping_message()),
    {
        self.prepare_body(Operation::CommitSalesOrder, input)
    }

    /// Marshals the persisting of a sales order from a host mapping.
    pub fn persist_sales_order(&self, input: &DynValue) -> (r: Result<PreparedCall, RaisedError>)
        ensures
            input@ is Object ==> (r matches Ok(p)
                && p.op == Operation::PersistSalesOrder
                && p.sales_order_key is None
                && p.shipment_keys is None
                && (p.body matches Some(b) && b@ == camel_dyn(input@))),
            !(input@ is Object) ==> (r matches Err(e) && e@ == body_not_mapping_message()),
    {
        self.prepare_body(Operation::PersistSalesOrder, input)
    }

    /// Marshals the adding or updating of a product from a host mapping.
    pub fn add_update_product(&self, input: &DynValue) -> (r: Result<PreparedCall, RaisedError>)
        ensures
            input@ is Object ==> (r matches Ok(p)
                && p.op == Operation::AddUpdateProduct
                && p.sales_order_key is None
                && p.shipment_keys is None
                && (p.body matches Some(b) && b@ == camel_dyn(input@))),
            !(input@ is Object) ==> (r matches Err(e) && e@ == body_not_mapping_message()),
    {
        self.prepare_body(Operation::AddUpdateProduct, input)
    }

    /// Marshals the adding or updating of a brand from a host mapping.
    pub fn add_update_brand(&self, input: &DynValue) -> (r: Result<PreparedCall, RaisedError>)
        ensures
            input@ is Object ==> (r matches Ok(p)
                && p.op == Operation::AddUpdateBrand
                && p.sales_order_key is None
                && p.shipment_keys is None
                && (p.body matches Some(b) && b@ == camel_dyn(input@))),
            !(input@ is Object) ==> (r matches Err(e) && e@ == body_not_mapping_message()),
    {
        self.prepare_body(Operation::AddUpdateBrand, input)
    }

    /// Marshals a sales-tax rate quote for an address from a host mapping.
    pub fn get_sales_tax_rates_by_address(&self, input: &DynValue) -> (r: Result<PreparedCall, RaisedError>)
        ensures
            input@ is Object ==> (r matches Ok(p)
                && p.op == Operation::GetSalesTaxRatesByAddress
                && p.sales_order_key is None
                && p.shipment_keys is None
                && (p.body matches Some(b) && b@ == camel_dyn(input@))),
            !(input@ is Object) ==> (r matches Err(e) && e@ == body_not_mapping_message()),
    {
        self.prepare_body(Operation::GetSalesTaxRatesByAddress, input)
    }

    /// Marshals a sales-tax due quote for an order from a host mapping.
    pub fn calculate_sales_tax_due_for_order(&self, input: &DynValue) -> (r: Result<PreparedCall, RaisedError>)
        ensures
            input@ is Object ==> (r matches Ok(p)
                && p.op == Operation::CalculateSalesTaxDueForOrder
                && p.sales_order_key is None
                && p.shipment_keys is None
                && (p.body matches Some(b) && b@ == camel_dyn(input@))),
            !(input@ is Object) ==> (r matches Err(e) && e@ == body_not_mapping_message()),
    {
        self.prepare_body(Operation::CalculateSalesTaxDueForOrder, input)
    }

    /// Marshals the fetch of a sales order's tracking, optionally
    /// filtered to the given shipment keys.
    pub fn get_sales_order_tracking(
        &self,
        sales_order_key: String,
        shipment_keys: Option<Vec<String>>,
    ) -> (r: PreparedCall)
        ensures
            r.op == Operation::GetSalesOrderTracking,
            r.sales_order_key matches Some(k) && k@ == sales_order_key@,
            r.shipment_keys == shipment_keys,
            r.body is None,
    {
        PreparedCall {
            op: Operation::GetSalesOrderTracking,
            sales_order_key: Some(sales_order_key),
            shipment_keys,
            body: None,
        }
    }
}

} // verus!
